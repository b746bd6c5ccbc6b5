//! The CodexRadar recommendation cache: two independently validated
//! sources, their 24-hour expiry, and the refresh schedule with its retry
//! back-off.

use vstd::prelude::*;

verus! {

/// Version tag of the on-disk cache layout.
pub const CACHE_SCHEMA: u32 = 1;
/// A source older than this is dropped.
pub const CACHE_MAX_AGE_SECS: u64 = 86_400;
/// Interval between refreshes after a complete success.
pub const FULL_REFRESH_INTERVAL_SECS: u64 = 3_600;
/// Minimum spacing of manual refreshes, and the wait after an interrupted attempt.
pub const MANUAL_REFRESH_COOLDOWN_SECS: u64 = 60;
/// Longest wait between retries after failures.
pub const MAX_RETRY_DELAY_SECS: u64 = 21_600;

/// One cached source value with the time it was last confirmed and the HTTP
/// validator (`Last-Modified` or `ETag`) that confirms it.
#[derive(Clone, Debug, PartialEq)]
pub struct CachedSource<T> {
    pub value: T,
    pub validated_at_unix: u64,
    pub validator: Option<String>,
}

/// Cached recommendations: `radar` holds the CodexRadar insights, `computed`
/// the recommendations derived from the raw efficiency data.
#[derive(Clone, Debug, PartialEq)]
pub struct RadarCache<R, C> {
    pub schema: u32,
    pub radar: Option<CachedSource<R>>,
    pub computed: Option<CachedSource<C>>,
    pub last_attempt_unix: Option<u64>,
    pub last_complete_success_unix: Option<u64>,
    pub retry_count: u32,
    pub last_refresh_complete: bool,
}

/// What one fetch of a source produced.
#[derive(Clone, Debug, PartialEq)]
pub enum SourceUpdate<T> {
    Updated { value: T, validator: Option<String> },
    NotModified,
    Failed(String),
}

/// The outcome of fetching both sources.
#[derive(Clone, Debug, PartialEq)]
pub struct RadarRefreshResult<R, C> {
    pub radar: SourceUpdate<R>,
    pub computed: SourceUpdate<C>,
}

/// Conditional-request validators to send with the next fetch.
#[derive(Clone, Debug, Default, PartialEq, Eq)]
pub struct FetchValidators {
    pub radar_last_modified: Option<String>,
    pub efficiency_etag: Option<String>,
}

impl<T> SourceUpdate<T> {
    /// The failure message, if this update failed.
    pub fn error(&self) -> (message: Option<&str>)
        ensures
            match self {
                SourceUpdate::Failed(m) => message is Some && message->0@ == m@,
                _ => message is None,
            },
    {
        match self {
            SourceUpdate::Failed(message) => Some(message.as_str()),
            _ => None,
        }
    }
}

/// A source is stale once more than `CACHE_MAX_AGE_SECS` have passed since it
/// was last validated.
pub open spec fn is_stale<T>(source: Option<CachedSource<T>>, now: u64) -> bool {
    match source {
        Some(s) => now > s.validated_at_unix + CACHE_MAX_AGE_SECS,
        None => false,
    }
}

/// The source with a stale value removed.
pub open spec fn fresh_source<T>(source: Option<CachedSource<T>>, now: u64) -> Option<CachedSource<T>> {
    if is_stale(source, now) {
        None
    } else {
        source
    }
}

/// The cache with both stale sources removed.
pub open spec fn pruned<R, C>(cache: RadarCache<R, C>, now: u64) -> RadarCache<R, C> {
    RadarCache {
        radar: fresh_source(cache.radar, now),
        computed: fresh_source(cache.computed, now),
        ..cache
    }
}

/// Whether a fetch outcome leaves the source confirmed: new data, or
/// "not modified" for data already cached.
pub open spec fn update_succeeds<T>(cached: Option<CachedSource<T>>, update: SourceUpdate<T>) -> bool {
    match update {
        SourceUpdate::Updated { .. } => true,
        SourceUpdate::NotModified => cached is Some,
        SourceUpdate::Failed(_) => false,
    }
}

/// The cached source after a fetch outcome at `now`: new data replaces it,
/// "not modified" re-validates it, and a failure leaves it as it was.
pub open spec fn source_after<T>(cached: Option<CachedSource<T>>, update: SourceUpdate<T>, now: u64) -> Option<CachedSource<T>> {
    match update {
        SourceUpdate::Updated { value, validator } => Some(
            CachedSource { value, validated_at_unix: now, validator },
        ),
        SourceUpdate::NotModified => match cached {
            Some(s) => Some(CachedSource { validated_at_unix: now, ..s }),
            None => None,
        },
        SourceUpdate::Failed(_) => cached,
    }
}

/// Whether both sources succeed.
pub open spec fn refresh_complete<R, C>(cache: RadarCache<R, C>, refresh: RadarRefreshResult<R, C>) -> bool {
    update_succeeds(cache.radar, refresh.radar) && update_succeeds(cache.computed, refresh.computed)
}

/// The cache after applying a refresh at `now`.
pub open spec fn refreshed<R, C>(cache: RadarCache<R, C>, refresh: RadarRefreshResult<R, C>, now: u64) -> RadarCache<R, C> {
    let complete = refresh_complete(cache, refresh);
    pruned(
        RadarCache {
            schema: cache.schema,
            radar: source_after(cache.radar, refresh.radar, now),
            computed: source_after(cache.computed, refresh.computed, now),
            last_attempt_unix: Some(now),
            last_complete_success_unix: if complete {
                Some(now)
            } else {
                cache.last_complete_success_unix
            },
            retry_count: if complete {
                0
            } else if cache.retry_count < u32::MAX {
                (cache.retry_count + 1) as u32
            } else {
                u32::MAX
            },
            last_refresh_complete: complete,
        },
        now,
    )
}

/// Wait before the next retry after `retry_count` consecutive failures:
/// 15 minutes, 30 minutes, 1 hour, then 6 hours.
pub open spec fn retry_delay_spec(retry_count: u32) -> u64 {
    if retry_count <= 1 {
        900
    } else if retry_count == 2 {
        1_800
    } else if retry_count == 3 {
        3_600
    } else {
        MAX_RETRY_DELAY_SECS
    }
}

/// Seconds from `now` until the next refresh is due (0 when due now).
pub open spec fn next_due_spec<R, C>(cache: RadarCache<R, C>, now: u64) -> u64 {
    let delay: Option<u64> = if cache.last_refresh_complete {
        Some(FULL_REFRESH_INTERVAL_SECS)
    } else if cache.retry_count > 0 {
        Some(retry_delay_spec(cache.retry_count))
    } else if cache.last_attempt_unix is Some {
        Some(MANUAL_REFRESH_COOLDOWN_SECS)
    } else {
        None
    };
    match delay {
        None => 0,
        Some(d) => {
            let start: u64 = match cache.last_attempt_unix {
                Some(t) => t,
                None => 0,
            };
            let due: int = if start + d > u64::MAX {
                u64::MAX as int
            } else {
                start + d
            };
            if due > now {
                (due - now) as u64
            } else {
                0
            }
        },
    }
}

/// The validators stored with the cached sources.
pub open spec fn validators_spec<R, C>(cache: RadarCache<R, C>) -> FetchValidators {
    FetchValidators {
        radar_last_modified: match cache.radar {
            Some(s) => s.validator,
            None => None,
        },
        efficiency_etag: match cache.computed {
            Some(s) => s.validator,
            None => None,
        },
    }
}

fn clone_validator(validator: &Option<String>) -> (copy: Option<String>)
    ensures
        copy == *validator,
{
    match validator {
        Some(v) => Some(v.clone()),
        None => None,
    }
}

impl<R, C> RadarCache<R, C> {
    /// An empty cache of the current schema.
    pub fn new() -> (cache: Self)
        ensures
            cache.schema == CACHE_SCHEMA,
            cache.radar is None,
            cache.computed is None,
            cache.last_attempt_unix is None,
            cache.last_complete_success_unix is None,
            cache.retry_count == 0,
            !cache.last_refresh_complete,
    {
        RadarCache {
            schema: CACHE_SCHEMA,
            radar: None,
            computed: None,
            last_attempt_unix: None,
            last_complete_success_unix: None,
            retry_count: 0,
            last_refresh_complete: false,
        }
    }

    /// Whether either source holds data.
    pub fn has_any_data(&self) -> (b: bool)
        ensures
            b == (self.radar is Some || self.computed is Some),
    {
        self.radar.is_some() || self.computed.is_some()
    }

    /// The validators stored with the cached sources.
    pub fn validators(&self) -> (v: FetchValidators)
        ensures
            v == validators_spec(*self),
    {
        FetchValidators {
            radar_last_modified: match &self.radar {
                Some(source) => clone_validator(&source.validator),
                None => None,
            },
            efficiency_etag: match &self.computed {
                Some(source) => clone_validator(&source.validator),
                None => None,
            },
        }
    }

    /// Drops every source not validated within the last 24 hours.
    pub fn prune_stale(&mut self, now_unix: u64)
        ensures
            *final(self) == pruned(*old(self), now_unix),
    {
        let radar_stale = match &self.radar {
            Some(source) => now_unix.saturating_sub(source.validated_at_unix) > CACHE_MAX_AGE_SECS,
            None => false,
        };
        if radar_stale {
            self.radar = None;
        }
        let computed_stale = match &self.computed {
            Some(source) => now_unix.saturating_sub(source.validated_at_unix) > CACHE_MAX_AGE_SECS,
            None => false,
        };
        if computed_stale {
            self.computed = None;
        }
    }
}

impl<R, C> Default for RadarCache<R, C> {
    fn default() -> (cache: Self)
        ensures
            cache == (RadarCache::<R, C> {
                schema: CACHE_SCHEMA,
                radar: None,
                computed: None,
                last_attempt_unix: None,
                last_complete_success_unix: None,
                retry_count: 0,
                last_refresh_complete: false,
            }),
    {
        RadarCache::new()
    }
}

/// Applies one fetch outcome to a cached source; returns whether the source
/// is confirmed.
pub fn apply_source<T>(cached: &mut Option<CachedSource<T>>, update: SourceUpdate<T>, now_unix: u64) -> (ok: bool)
    ensures
        ok == update_succeeds(*old(cached), update),
        *final(cached) == source_after(*old(cached), update, now_unix),
{
    match update {
        SourceUpdate::Updated { value, validator } => {
            *cached = Some(CachedSource { value, validated_at_unix: now_unix, validator });
            true
        },
        SourceUpdate::NotModified => {
            match cached.take() {
                Some(source) => {
                    *cached = Some(CachedSource { validated_at_unix: now_unix, ..source });
                    true
                },
                None => false,
            }
        },
        SourceUpdate::Failed(_) => false,
    }
}

/// Applies a refresh of both sources at `now_unix`; returns whether both
/// sources succeeded.
pub fn apply_refresh<R, C>(cache: &mut RadarCache<R, C>, refresh: RadarRefreshResult<R, C>, now_unix: u64) -> (complete: bool)
    ensures
        complete == refresh_complete(*old(cache), refresh),
        *final(cache) == refreshed(*old(cache), refresh, now_unix),
        refresh.radar is Failed ==> final(cache).radar == fresh_source(old(cache).radar, now_unix),
        refresh.computed is Failed ==> final(cache).computed == fresh_source(old(cache).computed, now_unix),
{
    proof { lemma_fetch_outcome_per_source(*old(cache), refresh, now_unix); }
    let RadarRefreshResult { radar, computed } = refresh;
    let radar_succeeded = apply_source(&mut cache.radar, radar, now_unix);
    let computed_succeeded = apply_source(&mut cache.computed, computed, now_unix);
    let complete = radar_succeeded && computed_succeeded;

    cache.last_attempt_unix = Some(now_unix);
    cache.last_refresh_complete = complete;
    if complete {
        cache.last_complete_success_unix = Some(now_unix);
        cache.retry_count = 0;
    } else {
        cache.retry_count = cache.retry_count.saturating_add(1);
    }
    cache.prune_stale(now_unix);
    complete
}

/// Wait before the next retry after `retry_count` consecutive failures.
pub fn retry_delay(retry_count: u32) -> (delay: u64)
    ensures
        delay == retry_delay_spec(retry_count),
{
    let delays: [u64; 4] = [900, 1_800, 3_600, MAX_RETRY_DELAY_SECS];
    let index = if retry_count == 0 { 0usize } else { (retry_count - 1) as usize };
    let index = if index < 3 { index } else { 3usize };
    let delay = delays[index];
    delay
}

/// Seconds until the next refresh is due.
pub fn next_due_in_secs<R, C>(cache: &RadarCache<R, C>, now_unix: u64) -> (secs: u64)
    ensures
        secs == next_due_spec(*cache, now_unix),
{
    let delay = if cache.last_refresh_complete {
        FULL_REFRESH_INTERVAL_SECS
    } else if cache.retry_count > 0 {
        retry_delay(cache.retry_count)
    } else if cache.last_attempt_unix.is_some() {
        MANUAL_REFRESH_COOLDOWN_SECS
    } else {
        return 0;
    };
    let start = match cache.last_attempt_unix {
        Some(t) => t,
        None => 0,
    };
    let due_at = start.saturating_add(delay);
    due_at.saturating_sub(now_unix)
}

/// Accepts a decoded cache only when it has the current schema, and drops
/// its stale sources.
pub fn check_loaded_cache<R, C>(cache: RadarCache<R, C>, now_unix: u64) -> (checked: Option<RadarCache<R, C>>)
    ensures
        cache.schema != CACHE_SCHEMA ==> checked is None,
        cache.schema == CACHE_SCHEMA ==> checked == Some(pruned(cache, now_unix)),
{
    if cache.schema != CACHE_SCHEMA {
        return None;
    }
    let mut cache = cache;
    cache.prune_stale(now_unix);
    Some(cache)
}


/// Pruning twice removes nothing more than pruning once.
pub proof fn lemma_prune_idempotent<R, C>(cache: RadarCache<R, C>, now: u64)
    ensures
        pruned(pruned(cache, now), now) == pruned(cache, now),
{
}

/// After a refresh at `now`, no cached source is older than 24 hours.
pub proof fn lemma_refresh_leaves_no_stale_source<R, C>(cache: RadarCache<R, C>, refresh: RadarRefreshResult<R, C>, now: u64)
    ensures
        !is_stale(refreshed(cache, refresh, now).radar, now),
        !is_stale(refreshed(cache, refresh, now).computed, now),
{
}

/// What a refresh at `now` leaves in each slot: new data is stored as
/// validated now, "not modified" re-validates what was cached (and leaves an
/// empty slot empty), and a failed fetch keeps the cached entry as it was,
/// except that an entry older than 24 hours is dropped.
pub proof fn lemma_fetch_outcome_per_source<R, C>(cache: RadarCache<R, C>, refresh: RadarRefreshResult<R, C>, now: u64)
    ensures
        match refresh.radar {
            SourceUpdate::Updated { value, validator } => refreshed(cache, refresh, now).radar == Some(
                CachedSource { value, validated_at_unix: now, validator },
            ),
            SourceUpdate::NotModified => refreshed(cache, refresh, now).radar == match cache.radar {
                Some(s) => Some(CachedSource { value: s.value, validated_at_unix: now, validator: s.validator }),
                None => None,
            },
            SourceUpdate::Failed(_) => refreshed(cache, refresh, now).radar == if is_stale(cache.radar, now) {
                None
            } else {
                cache.radar
            },
        },
        match refresh.computed {
            SourceUpdate::Updated { value, validator } => refreshed(cache, refresh, now).computed == Some(
                CachedSource { value, validated_at_unix: now, validator },
            ),
            SourceUpdate::NotModified => refreshed(cache, refresh, now).computed == match cache.computed {
                Some(s) => Some(CachedSource { value: s.value, validated_at_unix: now, validator: s.validator }),
                None => None,
            },
            SourceUpdate::Failed(_) => refreshed(cache, refresh, now).computed == if is_stale(cache.computed, now) {
                None
            } else {
                cache.computed
            },
        },
{
}

/// Each source is refreshed independently: what a refresh leaves in the radar
/// slot depends only on the cached radar source and the radar fetch outcome,
/// and likewise for the computed slot.
pub proof fn lemma_sources_refresh_independently<R, C>(
    cache1: RadarCache<R, C>,
    refresh1: RadarRefreshResult<R, C>,
    cache2: RadarCache<R, C>,
    refresh2: RadarRefreshResult<R, C>,
    now: u64,
)
    ensures
        cache1.radar == cache2.radar && refresh1.radar == refresh2.radar ==> refreshed(cache1, refresh1, now).radar
            == refreshed(cache2, refresh2, now).radar,
        cache1.computed == cache2.computed && refresh1.computed == refresh2.computed ==> refreshed(cache1, refresh1, now).computed
            == refreshed(cache2, refresh2, now).computed,
{
}

/// A refresh in which both sources succeed clears the retry count and
/// schedules the next refresh one full interval later.
pub proof fn lemma_complete_refresh_schedules_full_interval<R, C>(
    cache: RadarCache<R, C>,
    refresh: RadarRefreshResult<R, C>,
    now: u64,
)
    requires
        refresh_complete(cache, refresh),
        now + FULL_REFRESH_INTERVAL_SECS <= u64::MAX,
    ensures
        refreshed(cache, refresh, now).retry_count == 0,
        refreshed(cache, refresh, now).last_refresh_complete,
        next_due_spec(refreshed(cache, refresh, now), now) == FULL_REFRESH_INTERVAL_SECS,
{
}

/// A refresh in which a source fails counts one more retry and schedules the
/// next attempt after the back-off delay for that count, between 15 minutes
/// and 6 hours.
pub proof fn lemma_failed_refresh_backs_off<R, C>(cache: RadarCache<R, C>, refresh: RadarRefreshResult<R, C>, now: u64)
    requires
        !refresh_complete(cache, refresh),
        now + MAX_RETRY_DELAY_SECS <= u64::MAX,
    ensures
        refreshed(cache, refresh, now).retry_count >= 1,
        refreshed(cache, refresh, now).retry_count >= cache.retry_count,
        !refreshed(cache, refresh, now).last_refresh_complete,
        next_due_spec(refreshed(cache, refresh, now), now) == retry_delay_spec(
            refreshed(cache, refresh, now).retry_count,
        ),
        900 <= next_due_spec(refreshed(cache, refresh, now), now) <= MAX_RETRY_DELAY_SECS,
{
}

/// Retry delays never shrink as failures accumulate, and never exceed 6 hours.
pub proof fn lemma_retry_delay_progressive(fewer: u32, more: u32)
    requires
        fewer <= more,
    ensures
        retry_delay_spec(fewer) <= retry_delay_spec(more),
        retry_delay_spec(more) <= MAX_RETRY_DELAY_SECS,
{
}

} // verus!
