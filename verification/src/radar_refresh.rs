//! Driving CodexRadar refreshes: when one may start, which result is
//! accepted, the timer that schedules the next one, and the recommendation
//! tooltip's text.

use vstd::prelude::*;
use crate::radar_cache::{
    FetchValidators, MANUAL_REFRESH_COOLDOWN_SECS, RadarCache, RadarRefreshResult, apply_refresh,
    refresh_complete, refreshed, validators_spec,
};
use crate::text::{chars_vec, decimal, find_from, find_from_exec, push_decimal, string_from_chars};

verus! {

/// What the recommendation tooltip reports while the cache is empty.
#[derive(Clone, Copy, Debug, PartialEq, Eq)]
pub enum RadarStatus {
    Loading,
    Ready,
    Error,
}

/// The refresh state kept by the widget.
pub struct RadarRuntimeState<R, C> {
    pub status: RadarStatus,
    pub cache: RadarCache<R, C>,
    pub in_flight: bool,
    pub request_generation: u64,
}

/// Whether a refresh may start at `now`: the feature is enabled, none is in
/// flight, and a manual request comes at least a minute after the last attempt.
pub open spec fn may_begin(enabled: bool, in_flight: bool, manual: bool, last_attempt: Option<u64>, now: u64) -> bool {
    enabled && !in_flight && !(manual && last_attempt is Some && now >= last_attempt->0 && now - last_attempt->0
        < MANUAL_REFRESH_COOLDOWN_SECS) && !(manual && last_attempt is Some && now < last_attempt->0)
}

/// The generation after `g`, wrapping around.
pub open spec fn next_generation(g: u64) -> u64 {
    if g == u64::MAX { 0 } else { (g + 1) as u64 }
}

impl<R, C> RadarRuntimeState<R, C> {
    /// Starts a refresh at `now` when one may start: marks it in flight,
    /// moves to a new request generation, records the attempt and shows
    /// loading while nothing is cached. Returns the generation and the
    /// validators to send, or `None` (and no change) when refused.
    pub fn begin_refresh(&mut self, enabled: bool, manual: bool, now: u64) -> (started: Option<(u64, FetchValidators)>)
        ensures
            !may_begin(enabled, old(self).in_flight, manual, old(self).cache.last_attempt_unix, now) ==> started is None
                && *final(self) == *old(self),
            may_begin(enabled, old(self).in_flight, manual, old(self).cache.last_attempt_unix, now) ==> {
                &&& started == Some((next_generation(old(self).request_generation), validators_spec(old(self).cache)))
                &&& final(self).request_generation == next_generation(old(self).request_generation)
                &&& final(self).in_flight
                &&& final(self).cache == (RadarCache { last_attempt_unix: Some(now), ..old(self).cache })
                &&& final(self).status == if old(self).cache.radar is None && old(self).cache.computed is None {
                    RadarStatus::Loading
                } else {
                    old(self).status
                }
            },
    {
        if !enabled || self.in_flight {
            return None;
        }
        if manual {
            match self.cache.last_attempt_unix {
                Some(last) => {
                    if now.saturating_sub(last) < MANUAL_REFRESH_COOLDOWN_SECS {
                        return None;
                    }
                },
                None => {},
            }
        }
        self.in_flight = true;
        self.request_generation = self.request_generation.wrapping_add(1);
        self.cache.last_attempt_unix = Some(now);
        if !self.cache.has_any_data() {
            self.status = RadarStatus::Loading;
        }
        Some((self.request_generation, self.cache.validators()))
    }

    /// Applies the result of the refresh of generation `generation`, fetched
    /// and completed at `now`. Results of an earlier generation, or arriving
    /// after the feature was disabled, are dropped without any change
    /// (`None`). Otherwise the cache takes the result, nothing is in flight
    /// any more, the status is `Ready` when anything is cached and `Error`
    /// otherwise, and the refresh's completeness is returned.
    pub fn complete_refresh(&mut self, enabled: bool, generation: u64, refresh: RadarRefreshResult<R, C>, now: u64) -> (outcome: Option<bool>)
        ensures
            !(enabled && generation == old(self).request_generation) ==> outcome is None && *final(self) == *old(self),
            enabled && generation == old(self).request_generation ==> {
                &&& outcome == Some(refresh_complete(old(self).cache, refresh))
                &&& final(self).cache == refreshed(old(self).cache, refresh, now)
                &&& !final(self).in_flight
                &&& final(self).request_generation == old(self).request_generation
                &&& final(self).status == if final(self).cache.radar is Some || final(self).cache.computed is Some {
                    RadarStatus::Ready
                } else {
                    RadarStatus::Error
                }
            },
    {
        if !enabled || self.request_generation != generation {
            return None;
        }
        let complete = apply_refresh(&mut self.cache, refresh, now);
        self.in_flight = false;
        self.status = if self.cache.has_any_data() { RadarStatus::Ready } else { RadarStatus::Error };
        Some(complete)
    }
}

/// A refresh that begins moves to a generation other than the one before,
/// so once a newer refresh has begun the older request's result is dropped
/// by `complete_refresh`.
pub proof fn lemma_new_refresh_supersedes_old(generation: u64)
    ensures
        next_generation(generation) != generation,
{
}

/// How the refresh schedule starts when the widget comes up.
#[derive(Clone, Copy, Debug, PartialEq, Eq)]
pub enum RadarStart {
    /// The feature is disabled.
    Idle,
    /// A refresh is due now.
    RefreshNow,
    /// Wait this many seconds before refreshing.
    ScheduleIn(u64),
}

/// The first refresh decision: nothing when disabled, a refresh now when it
/// is due, otherwise a timer for the remaining seconds.
pub fn initial_radar_action(enabled: bool, due_in_secs: u64) -> (start: RadarStart)
    ensures
        !enabled ==> start == RadarStart::Idle,
        enabled && due_in_secs == 0 ==> start == RadarStart::RefreshNow,
        enabled && due_in_secs > 0 ==> start == RadarStart::ScheduleIn(due_in_secs),
{
    if !enabled {
        RadarStart::Idle
    } else if due_in_secs == 0 {
        RadarStart::RefreshNow
    } else {
        RadarStart::ScheduleIn(due_in_secs)
    }
}

/// Timer period for a refresh due in `delay_secs`: the delay in
/// milliseconds, saturated to `u32`, and at least one second.
pub open spec fn radar_timer_ms_spec(delay_secs: u64) -> u32 {
    let ms: int = delay_secs * 1000;
    let capped: int = if ms > u32::MAX { u32::MAX as int } else { ms };
    if capped < 1000 { 1000 } else { capped as u32 }
}

/// Timer period for a refresh due in `delay_secs`.
pub fn radar_timer_ms(delay_secs: u64) -> (ms: u32)
    ensures
        ms == radar_timer_ms_spec(delay_secs),
        ms >= 1000,
{
    let capped: u32 = if delay_secs > 4_294_967 {
        4_294_967_295u32
    } else {
        (delay_secs * 1000) as u32
    };
    if capped < 1000 { 1000 } else { capped }
}

/// Timer period after a refresh finished: at least one second even when the
/// next refresh is already due.
pub fn timer_after_update_ms(due_in_secs: u64) -> (ms: u32)
    ensures
        ms == radar_timer_ms_spec(if due_in_secs < 1 { 1 } else { due_in_secs }),
{
    let delay = if due_in_secs < 1 { 1 } else { due_in_secs };
    radar_timer_ms(delay)
}

/// Age of cached recommendations as shown in the tooltip: `just now` under
/// a minute, whole minutes under an hour, whole hours beyond.
pub open spec fn radar_age_spec(elapsed_secs: u64, just_now: Seq<char>, minute_suffix: Seq<char>, hour_suffix: Seq<char>) -> Seq<char> {
    if elapsed_secs < 60 {
        just_now
    } else if elapsed_secs < 3_600 {
        decimal((elapsed_secs / 60) as nat) + minute_suffix
    } else {
        decimal((elapsed_secs / 3_600) as nat) + hour_suffix
    }
}

/// The age text of cached recommendations.
pub fn format_radar_age(elapsed_secs: u64, just_now: &str, minute_suffix: &str, hour_suffix: &str) -> (age: String)
    ensures
        age@ == radar_age_spec(elapsed_secs, just_now@, minute_suffix@, hour_suffix@),
{
    if elapsed_secs < 60 {
        String::from_str(just_now)
    } else if elapsed_secs < 3_600 {
        let mut age = String::new();
        push_decimal(&mut age, elapsed_secs / 60);
        age.append(minute_suffix);
        age
    } else {
        let mut age = String::new();
        push_decimal(&mut age, elapsed_secs / 3_600);
        age.append(hour_suffix);
        age
    }
}

/// `s` from index `from` on, with every occurrence of `pat` (searched left
/// to right, without overlaps) replaced by `rep` (`str::replace`).
pub open spec fn replace_from(s: Seq<char>, pat: Seq<char>, rep: Seq<char>, from: int) -> Seq<char>
    decreases s.len() + 1 - from,
{
    if pat.len() == 0 || from < 0 || from > s.len() {
        s.skip(from)
    } else {
        match find_from(s, pat, from) {
            None => s.skip(from),
            Some(i) => if i < from || i + pat.len() > s.len() {
                s.skip(from)
            } else {
                s.subrange(from, i) + rep + replace_from(s, pat, rep, i + pat.len())
            },
        }
    }
}

proof fn lemma_find_from_bounds(s: Seq<char>, pat: Seq<char>, from: int)
    ensures
        find_from(s, pat, from) is Some ==> from <= find_from(s, pat, from)->0 && find_from(s, pat, from)->0
            + pat.len() <= s.len(),
    decreases s.len() + 1 - from,
{
    if !(from < 0 || from + pat.len() > s.len()) && !crate::text::occurs_at(s, pat, from) {
        lemma_find_from_bounds(s, pat, from + 1);
    }
}

/// Replaces every occurrence of a non-empty `pat` in `s` by `rep`.
pub fn replace_all(s: &str, pat: &str, rep: &str) -> (out: String)
    requires
        pat@.len() > 0,
    ensures
        out@ == replace_from(s@, pat@, rep@, 0),
{
    let v = chars_vec(s);
    let p = chars_vec(pat);
    let mut out = String::new();
    let mut from: usize = 0;
    assert(out@ + replace_from(s@, pat@, rep@, 0) == replace_from(s@, pat@, rep@, 0));
    loop
        invariant
            v@ == s@,
            p@ == pat@,
            p@.len() > 0,
            0 <= from <= v.len(),
            out@ + replace_from(s@, pat@, rep@, from as int) == replace_from(s@, pat@, rep@, 0),
        decreases v.len() + 1 - from,
    {
        proof {
            lemma_find_from_bounds(s@, pat@, from as int);
        }
        match find_from_exec(&v, &p, from) {
            None => {
                let mut rest: Vec<char> = Vec::new();
                let mut k = from;
                while k < v.len()
                    invariant
                        from <= k <= v.len(),
                        rest@ == v@.subrange(from as int, k as int),
                    decreases v.len() - k,
                {
                    rest.push(v[k]);
                    k += 1;
                    assert(rest@ =~= v@.subrange(from as int, k as int));
                }
                let tail = string_from_chars(&rest);
                out.append(tail.as_str());
                assert(v@.subrange(from as int, v.len() as int) =~= s@.skip(from as int));
                return out;
            },
            Some(i) => {
                let mut piece: Vec<char> = Vec::new();
                let mut k = from;
                while k < i
                    invariant
                        from <= k <= i,
                        i + p.len() <= v.len(),
                        piece@ == v@.subrange(from as int, k as int),
                    decreases i - k,
                {
                    piece.push(v[k]);
                    k += 1;
                    assert(piece@ =~= v@.subrange(from as int, k as int));
                }
                let chunk = string_from_chars(&piece);
                let ghost before = out@;
                out.append(chunk.as_str());
                out.append(rep);
                assert(out@ + replace_from(s@, pat@, rep@, (i + p.len()) as int) =~= before + replace_from(s@, pat@, rep@, from as int));
                from = i + p.len();
            },
        }
    }
}

/// The localized texts of the recommendation tooltip.
pub struct RadarTooltipText<'a> {
    pub loading: &'a str,
    pub fetch_error: &'a str,
    /// Header line; `{age}` stands for the age of the oldest cached source.
    pub header_template: &'a str,
    pub cached_warning: &'a str,
    pub just_now: &'a str,
    pub minute_suffix: &'a str,
    pub hour_suffix: &'a str,
}

/// When the older of the cached sources was last validated.
pub open spec fn oldest_validation<R, C>(cache: RadarCache<R, C>, now: u64) -> u64 {
    match (cache.radar, cache.computed) {
        (Some(r), Some(c)) => if r.validated_at_unix <= c.validated_at_unix { r.validated_at_unix } else { c.validated_at_unix },
        (Some(r), None) => r.validated_at_unix,
        (None, Some(c)) => c.validated_at_unix,
        (None, None) => now,
    }
}

/// `lines` joined with CR LF.
pub open spec fn join_lines(lines: Seq<Seq<char>>) -> Seq<char>
    decreases lines.len(),
{
    if lines.len() == 0 {
        Seq::empty()
    } else if lines.len() == 1 {
        lines[0]
    } else {
        join_lines(lines.drop_last()) + "\r\n"@ + lines.last()
    }
}

/// The recommendation tooltip: empty while the feature is disabled; the
/// loading or fetch-error note while nothing is cached; otherwise a header
/// with the age of the oldest cached source (marked as possibly outdated
/// after an incomplete refresh), followed by the recommendation lines.
pub open spec fn radar_tooltip_spec<R, C>(
    enabled: bool,
    status: RadarStatus,
    cache: RadarCache<R, C>,
    now: u64,
    text: RadarTooltipText,
    body: Seq<Seq<char>>,
) -> Seq<char> {
    if !enabled {
        Seq::empty()
    } else if cache.radar is None && cache.computed is None {
        if status == RadarStatus::Loading { text.loading@ } else { text.fetch_error@ }
    } else {
        let oldest = oldest_validation(cache, now);
        let elapsed: u64 = if now >= oldest { (now - oldest) as u64 } else { 0 };
        let age = radar_age_spec(elapsed, text.just_now@, text.minute_suffix@, text.hour_suffix@);
        let header = replace_from(text.header_template@, "{age}"@, age, 0);
        let header = if cache.last_refresh_complete { header } else { header + " · "@ + text.cached_warning@ };
        join_lines(seq![header] + body)
    }
}

/// The text of the recommendation tooltip; `body` holds the rendered
/// recommendation lines of the cached sources.
pub fn format_radar_tooltip<R, C>(
    enabled: bool,
    status: RadarStatus,
    cache: &RadarCache<R, C>,
    now: u64,
    text: &RadarTooltipText,
    body: &Vec<String>,
) -> (tooltip: String)
    ensures
        tooltip@ == radar_tooltip_spec(enabled, status, *cache, now, *text, body@.map_values(|l: String| l@)),
{
    if !enabled {
        return String::new();
    }
    if !cache.has_any_data() {
        return match status {
            RadarStatus::Loading => String::from_str(text.loading),
            _ => String::from_str(text.fetch_error),
        };
    }
    let oldest = match (&cache.radar, &cache.computed) {
        (Some(r), Some(c)) => if r.validated_at_unix <= c.validated_at_unix { r.validated_at_unix } else { c.validated_at_unix },
        (Some(r), None) => r.validated_at_unix,
        (None, Some(c)) => c.validated_at_unix,
        (None, None) => now,
    };
    let age = format_radar_age(now.saturating_sub(oldest), text.just_now, text.minute_suffix, text.hour_suffix);
    let age_pat = "{age}";
    proof {
        reveal_strlit("{age}");
    }
    let mut tooltip = replace_all(text.header_template, age_pat, age.as_str());
    if !cache.last_refresh_complete {
        tooltip.append(" · ");
        tooltip.append(text.cached_warning);
    }
    let ghost header = tooltip@;
    let ghost lines = seq![header] + body@.map_values(|l: String| l@);
    let mut i: usize = 0;
    assert(seq![header] + body@.map_values(|l: String| l@).take(0) =~= seq![header]);
    while i < body.len()
        invariant
            0 <= i <= body.len(),
            lines == seq![header] + body@.map_values(|l: String| l@),
            tooltip@ == join_lines(lines.take(i + 1)),
        decreases body.len() - i,
    {
        tooltip.append("\r\n");
        tooltip.append(body[i].as_str());
        i += 1;
        proof {
            assert(lines.take(i + 1).drop_last() =~= lines.take(i as int));
            assert(lines.take(i + 1).last() == body@[i - 1]@);
        }
    }
    assert(lines.take(body.len() + 1) =~= lines);
    tooltip
}

} // verus!
