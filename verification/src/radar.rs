//! CodexRadar recommendation data: label sanitising, display names, the
//! choice of speed / smart / daily-development recommendations from the
//! insights payload, and the integer bookkeeping of the efficiency data.

use vstd::prelude::*;
use crate::text::{chars_vec, is_control, is_control_spec, is_whitespace, is_whitespace_spec, push_char, same_text, string_from_chars};

verus! {

/// Longest label kept, in characters.
pub const MAX_LABEL_CHARS: usize = 64;
/// The insights payload version understood here.
pub const RADAR_INSIGHTS_SCHEMA: u32 = 1;
/// The efficiency payload version understood here.
pub const EFFICIENCY_SCHEMA: u32 = 1;

/// Why a CodexRadar payload was not usable.
#[derive(Clone, Copy, Debug, PartialEq, Eq)]
pub enum RadarDataError {
    InvalidJson,
    UnsupportedSchema,
    InvalidData,
    RecommendationUnavailable,
}

impl RadarDataError {
    /// The short message used when reporting the error.
    pub fn message(&self) -> (m: &'static str)
        ensures
            m@ == match self {
                RadarDataError::InvalidJson => "invalid JSON"@,
                RadarDataError::UnsupportedSchema => "unsupported schema"@,
                RadarDataError::InvalidData => "invalid recommendation data"@,
                RadarDataError::RecommendationUnavailable => "recommendation unavailable"@,
            },
    {
        match self {
            RadarDataError::InvalidJson => "invalid JSON",
            RadarDataError::UnsupportedSchema => "unsupported schema",
            RadarDataError::InvalidData => "invalid recommendation data",
            RadarDataError::RecommendationUnavailable => "recommendation unavailable",
        }
    }
}

/// `s` without leading white space (as `str::trim_start` removes it).
pub open spec fn trim_start_ws(s: Seq<char>) -> Seq<char>
    decreases s.len(),
{
    if s.len() > 0 && is_whitespace_spec(s[0]) {
        trim_start_ws(s.drop_first())
    } else {
        s
    }
}

/// `s` without trailing white space (as `str::trim_end` removes it).
pub open spec fn trim_end_ws(s: Seq<char>) -> Seq<char>
    decreases s.len(),
{
    if s.len() > 0 && is_whitespace_spec(s.last()) {
        trim_end_ws(s.drop_last())
    } else {
        s
    }
}

/// The characters a label keeps: everything but control characters.
pub open spec fn label_char() -> spec_fn(char) -> bool {
    |c: char| !is_control_spec(c)
}

/// At most the first `MAX_LABEL_CHARS` characters of `s`.
pub open spec fn cap_label(s: Seq<char>) -> Seq<char> {
    if s.len() > 64 {
        s.take(64)
    } else {
        s
    }
}

/// A label as displayed: trimmed, without control characters, at most 64
/// characters long.
pub open spec fn sanitized(s: Seq<char>) -> Seq<char> {
    cap_label(trim_end_ws(trim_start_ws(s)).filter(label_char()))
}

proof fn lemma_trim_start_step(s: Seq<char>, k: int)
    requires
        0 <= k < s.len(),
        is_whitespace_spec(s[k]),
    ensures
        trim_start_ws(s.subrange(k, s.len() as int)) == trim_start_ws(s.subrange(k + 1, s.len() as int)),
{
    assert(s.subrange(k, s.len() as int).drop_first() =~= s.subrange(k + 1, s.len() as int));
}

proof fn lemma_trim_end_step(s: Seq<char>, a: int, e: int)
    requires
        0 <= a < e <= s.len(),
        is_whitespace_spec(s[e - 1]),
    ensures
        trim_end_ws(s.subrange(a, e)) == trim_end_ws(s.subrange(a, e - 1)),
{
    assert(s.subrange(a, e).drop_last() =~= s.subrange(a, e - 1));
}

/// A label trimmed of surrounding white space, stripped of control
/// characters and cut to 64 characters; `None` when nothing is left.
pub fn sanitize_label(value: &str) -> (label: Option<String>)
    ensures
        label is Some <==> sanitized(value@).len() > 0,
        label is Some ==> label->0@ == sanitized(value@),
{
    let v = chars_vec(value);
    let n = v.len();
    let mut start: usize = 0;
    assert(v@.subrange(0, n as int) =~= v@);
    while start < n && is_whitespace(v[start])
        invariant
            n == v.len(),
            0 <= start <= n,
            trim_start_ws(v@) == trim_start_ws(v@.subrange(start as int, n as int)),
        decreases n - start,
    {
        proof {
            lemma_trim_start_step(v@, start as int);
        }
        start += 1;
    }
    let mut end: usize = n;
    while end > start && is_whitespace(v[end - 1])
        invariant
            n == v.len(),
            0 <= start <= end <= n,
            trim_end_ws(v@.subrange(start as int, n as int)) == trim_end_ws(v@.subrange(start as int, end as int)),
        decreases end - start,
    {
        proof {
            lemma_trim_end_step(v@, start as int, end as int);
        }
        end -= 1;
    }
    let ghost t = v@.subrange(start as int, end as int);
    assert(trim_end_ws(trim_start_ws(v@)) == t);
    let mut out: Vec<char> = Vec::new();
    let mut i: usize = start;
    while i < end
        invariant
            n == v.len(),
            0 <= start <= i <= end <= n,
            t == v@.subrange(start as int, end as int),
            out@ == cap_label(t.take(i - start).filter(label_char())),
        decreases end - i,
    {
        let c = v[i];
        proof {
            assert(t.take(i - start + 1) =~= t.take(i - start).push(c));
            t.take(i - start).lemma_filter_push(c, label_char());
        }
        if !is_control(c) && out.len() < MAX_LABEL_CHARS {
            out.push(c);
        }
        i += 1;
        proof {
            let before = t.take(i - 1 - start).filter(label_char());
            if before.len() > 64 {
                assert(before.push(c).take(64) =~= before.take(64));
            }
            if before.len() == 64 {
                assert(before.push(c).take(64) =~= before);
            }
        }
    }
    assert(t.take(end - start) =~= t);
    if out.len() == 0 {
        None
    } else {
        Some(string_from_chars(&out))
    }
}

/// The name shown for a model id: short names for the known models, the
/// sanitised id otherwise, `Unknown` when nothing is left of it.
pub open spec fn display_name(model: Seq<char>) -> Seq<char> {
    if model == "gpt-5.6-sol"@ {
        "Sol"@
    } else if model == "gpt-5.6-terra"@ {
        "Terra"@
    } else if model == "gpt-5.6-luna"@ {
        "Luna"@
    } else if model == "gpt-5.5"@ {
        "GPT-5.5"@
    } else if sanitized(model).len() > 0 {
        sanitized(model)
    } else {
        "Unknown"@
    }
}

/// The name shown for a model id.
pub fn model_display_name(model: &str) -> (name: String)
    ensures
        name@ == display_name(model@),
{
    if same_text(model, "gpt-5.6-sol") {
        String::from_str("Sol")
    } else if same_text(model, "gpt-5.6-terra") {
        String::from_str("Terra")
    } else if same_text(model, "gpt-5.6-luna") {
        String::from_str("Luna")
    } else if same_text(model, "gpt-5.5") {
        String::from_str("GPT-5.5")
    } else {
        match sanitize_label(model) {
            Some(label) => label,
            None => String::from_str("Unknown"),
        }
    }
}

} // verus!
verus! {

/// One entry of an insights group: its optional slot tag and, when the entry
/// holds a valid recommendation, that recommendation.
pub struct RadarItem<T> {
    pub slot: Option<String>,
    pub recommendation: Option<T>,
}

/// A named group of insights entries.
pub struct RadarGroup<T> {
    pub key: String,
    pub items: Vec<RadarItem<T>>,
}

/// A decoded insights payload.
pub struct RadarInsights<T> {
    pub schema: u32,
    pub groups: Vec<RadarGroup<T>>,
}

/// The recommendations kept from an insights payload: the explicit speed and
/// smart slots, and the untagged daily-development entries in payload order.
#[derive(Debug, PartialEq)]
pub struct RadarRecommendations<T> {
    pub speed: Option<T>,
    pub smart: Option<T>,
    pub daily_development: Vec<T>,
}

/// How an entry's slot tag is treated.
#[derive(Clone, Copy, Debug, PartialEq, Eq)]
pub enum SlotKind {
    Speed,
    Smart,
    LegacyValue,
    Untagged,
    Other,
}

/// The slot kind named by a tag.
pub open spec fn slot_kind_spec(slot: Option<String>) -> SlotKind {
    match slot {
        None => SlotKind::Untagged,
        Some(s) => if s@ == "speed"@ {
            SlotKind::Speed
        } else if s@ == "smart"@ {
            SlotKind::Smart
        } else if s@ == "value"@ {
            SlotKind::LegacyValue
        } else {
            SlotKind::Other
        },
    }
}

/// The slot kind named by a tag.
pub fn slot_kind(slot: &Option<String>) -> (kind: SlotKind)
    ensures
        kind == slot_kind_spec(*slot),
{
    match slot {
        None => SlotKind::Untagged,
        Some(s) => if same_text(s.as_str(), "speed") {
            SlotKind::Speed
        } else if same_text(s.as_str(), "smart") {
            SlotKind::Smart
        } else if same_text(s.as_str(), "value") {
            SlotKind::LegacyValue
        } else {
            SlotKind::Other
        },
    }
}

/// Recommendations collected so far while reading a group's entries.
pub struct SlotPicks<T> {
    pub speed: Option<T>,
    pub smart: Option<T>,
    pub legacy_value: Option<T>,
    pub daily: Seq<T>,
}

/// Reads one entry: the first entry of each tagged slot fills it, later ones
/// are ignored; untagged entries are appended to the daily list; entries with
/// an unknown tag are ignored. An entry that is used but holds no valid
/// recommendation makes the whole payload invalid (`None`).
pub open spec fn pick_step<T>(picks: SlotPicks<T>, item: RadarItem<T>) -> Option<SlotPicks<T>> {
    match slot_kind_spec(item.slot) {
        SlotKind::Speed => if picks.speed is None {
            match item.recommendation {
                None => None,
                Some(r) => Some(SlotPicks { speed: Some(r), ..picks }),
            }
        } else {
            Some(picks)
        },
        SlotKind::Smart => if picks.smart is None {
            match item.recommendation {
                None => None,
                Some(r) => Some(SlotPicks { smart: Some(r), ..picks }),
            }
        } else {
            Some(picks)
        },
        SlotKind::LegacyValue => if picks.legacy_value is None {
            match item.recommendation {
                None => None,
                Some(r) => Some(SlotPicks { legacy_value: Some(r), ..picks }),
            }
        } else {
            Some(picks)
        },
        SlotKind::Untagged => match item.recommendation {
            None => None,
            Some(r) => Some(SlotPicks { daily: picks.daily.push(r), ..picks }),
        },
        SlotKind::Other => Some(picks),
    }
}

/// The picks after reading `items` in order, or `None` once an entry is invalid.
pub open spec fn picks_after<T>(items: Seq<RadarItem<T>>) -> Option<SlotPicks<T>>
    decreases items.len(),
{
    if items.len() == 0 {
        Some(SlotPicks { speed: None, smart: None, legacy_value: None, daily: Seq::empty() })
    } else {
        match picks_after(items.drop_last()) {
            None => None,
            Some(p) => pick_step(p, items.last()),
        }
    }
}

/// Index of the first group keyed `daily_development` at or after `from`.
pub open spec fn daily_group_from<T>(groups: Seq<RadarGroup<T>>, from: int) -> Option<int>
    decreases groups.len() - from,
{
    if from < 0 || from >= groups.len() {
        None
    } else if groups[from].key@ == "daily_development"@ {
        Some(from)
    } else {
        daily_group_from(groups, from + 1)
    }
}

/// What an insights payload yields: the speed slot (falling back to the
/// legacy value slot), the smart slot and the daily list, or the error.
pub open spec fn insights_outcome<T>(decoded: Option<RadarInsights<T>>) -> Result<(Option<T>, Option<T>, Seq<T>), RadarDataError> {
    match decoded {
        None => Err(RadarDataError::InvalidJson),
        Some(insights) => if insights.schema != RADAR_INSIGHTS_SCHEMA {
            Err(RadarDataError::UnsupportedSchema)
        } else {
            match daily_group_from(insights.groups@, 0) {
                None => Err(RadarDataError::RecommendationUnavailable),
                Some(g) => match picks_after(insights.groups@[g].items@) {
                    None => Err(RadarDataError::InvalidData),
                    Some(p) => {
                        let speed = if p.speed is None { p.legacy_value } else { p.speed };
                        if speed is None && p.smart is None && p.daily.len() == 0 {
                            Err(RadarDataError::RecommendationUnavailable)
                        } else {
                            Ok((speed, p.smart, p.daily))
                        }
                    },
                },
            }
        },
    }
}

/// The recommendations of the untagged entries of `items`, in order.
pub open spec fn untagged_recommendations<T>(items: Seq<RadarItem<T>>) -> Seq<T>
    decreases items.len(),
{
    if items.len() == 0 {
        Seq::empty()
    } else {
        let earlier = untagged_recommendations(items.drop_last());
        match (items.last().slot, items.last().recommendation) {
            (None, Some(r)) => earlier.push(r),
            _ => earlier,
        }
    }
}

proof fn lemma_picks_daily_is_untagged<T>(items: Seq<RadarItem<T>>)
    ensures
        picks_after(items) matches Some(p) ==> p.daily == untagged_recommendations(items),
    decreases items.len(),
{
    if items.len() > 0 {
        lemma_picks_daily_is_untagged(items.drop_last());
    }
}

/// For a payload that yields recommendations, the daily-development list
/// holds the recommendation of every untagged entry of the first
/// `daily_development` group, in payload order, whatever the speed and smart
/// slots hold.
pub proof fn lemma_daily_list_is_untagged_entries<T>(insights: RadarInsights<T>)
    requires
        insights_outcome(Some(insights)) is Ok,
    ensures
        ({
            let groups = insights.groups@;
            let g = daily_group_from(groups, 0)->0;
            &&& 0 <= g < groups.len()
            &&& groups[g].key@ == "daily_development"@
            &&& forall|j: int| 0 <= j < g ==> groups[j].key@ != "daily_development"@
            &&& insights_outcome(Some(insights))->Ok_0.2 == untagged_recommendations(groups[g].items@)
        }),
{
    let groups = insights.groups@;
    lemma_first_daily_group(groups, 0);
    let g = daily_group_from(groups, 0)->0;
    lemma_picks_daily_is_untagged(groups[g].items@);
}

proof fn lemma_first_daily_group<T>(groups: Seq<RadarGroup<T>>, from: int)
    requires
        0 <= from,
    ensures
        daily_group_from(groups, from) matches Some(g) ==> {
            &&& from <= g < groups.len()
            &&& groups[g].key@ == "daily_development"@
            &&& forall|j: int| from <= j < g ==> groups[j].key@ != "daily_development"@
        },
    decreases groups.len() - from,
{
    if from < groups.len() && groups[from].key@ != "daily_development"@ {
        lemma_first_daily_group(groups, from + 1);
    }
}

proof fn lemma_invalid_prefix_stays_invalid<T>(items: Seq<RadarItem<T>>, k: int)
    requires
        0 <= k <= items.len(),
        picks_after(items.take(k)) is None,
    ensures
        picks_after(items) is None,
    decreases items.len() - k,
{
    if k == items.len() {
        assert(items.take(k) =~= items);
    } else {
        let longer = items.take(k + 1);
        assert(longer.drop_last() =~= items.take(k));
        assert(picks_after(longer) is None);
        lemma_invalid_prefix_stays_invalid(items, k + 1);
    }
}

/// Chooses the recommendations of an insights payload (`None` when the
/// payload was not valid JSON of the expected shape).
pub fn recommendations_from_insights<T>(decoded: Option<RadarInsights<T>>) -> (result: Result<RadarRecommendations<T>, RadarDataError>)
    ensures
        match (result, insights_outcome(decoded)) {
            (Ok(r), Ok((speed, smart, daily))) => r.speed == speed && r.smart == smart && r.daily_development@ == daily,
            (Err(e), Err(f)) => e == f,
            _ => false,
        },
        result matches Ok(r) ==> r.daily_development@ == untagged_recommendations(
            decoded->0.groups@[daily_group_from(decoded->0.groups@, 0)->0].items@,
        ),
{
    let ghost dec = decoded;
    let insights = match decoded {
        None => return Err(RadarDataError::InvalidJson),
        Some(insights) => insights,
    };
    let ghost ins = insights;
    if insights.schema != RADAR_INSIGHTS_SCHEMA {
        return Err(RadarDataError::UnsupportedSchema);
    }
    let ghost all_groups = insights.groups@;
    let mut groups = insights.groups;
    let mut index: usize = 0;
    while index < groups.len() && !same_text(groups[index].key.as_str(), "daily_development")
        invariant
            groups@ == all_groups,
            0 <= index <= groups.len(),
            daily_group_from(all_groups, 0) == daily_group_from(all_groups, index as int),
        decreases groups.len() - index,
    {
        index += 1;
    }
    if index >= groups.len() {
        return Err(RadarDataError::RecommendationUnavailable);
    }
    let group = groups.remove(index);
    let ghost all_items = group.items@;
    assert(daily_group_from(all_groups, index as int) == Some(index as int));
    assert(all_items == all_groups[index as int].items@);
    let ghost g = index as int;
    let mut items = group.items;
    let mut speed: Option<T> = None;
    let mut smart: Option<T> = None;
    let mut legacy_value: Option<T> = None;
    let mut daily: Vec<T> = Vec::new();
    let ghost mut taken: int = 0;
    assert(all_items.take(0) =~= Seq::<RadarItem<T>>::empty());
    while items.len() > 0
        invariant
            dec == Some(ins),
            dec == decoded,
            ins.schema == RADAR_INSIGHTS_SCHEMA,
            ins.groups@ == all_groups,
            daily_group_from(all_groups, 0) == Some(g),
            0 <= g < all_groups.len(),
            all_groups[g].items@ == all_items,
            0 <= taken <= all_items.len(),
            items@ == all_items.skip(taken),
            picks_after(all_items.take(taken)) == Some(
                SlotPicks { speed, smart, legacy_value, daily: daily@ },
            ),
        decreases items.len(),
    {
        let item = items.remove(0);
        proof {
            assert(all_items.take(taken + 1).drop_last() =~= all_items.take(taken));
            assert(all_items.take(taken + 1).last() == item);
            assert(items@ =~= all_items.skip(taken + 1));
            taken = taken + 1;
        }
        let RadarItem { slot, recommendation } = item;
        match slot_kind(&slot) {
            SlotKind::Speed => {
                if speed.is_none() {
                    match recommendation {
                        None => {
                            proof { lemma_invalid_prefix_stays_invalid(all_items, taken); }
                            return Err(RadarDataError::InvalidData);
                        },
                        Some(r) => { speed = Some(r); },
                    }
                }
            },
            SlotKind::Smart => {
                if smart.is_none() {
                    match recommendation {
                        None => {
                            proof { lemma_invalid_prefix_stays_invalid(all_items, taken); }
                            return Err(RadarDataError::InvalidData);
                        },
                        Some(r) => { smart = Some(r); },
                    }
                }
            },
            SlotKind::LegacyValue => {
                if legacy_value.is_none() {
                    match recommendation {
                        None => {
                            proof { lemma_invalid_prefix_stays_invalid(all_items, taken); }
                            return Err(RadarDataError::InvalidData);
                        },
                        Some(r) => { legacy_value = Some(r); },
                    }
                }
            },
            SlotKind::Untagged => {
                match recommendation {
                    None => {
                        proof { lemma_invalid_prefix_stays_invalid(all_items, taken); }
                        return Err(RadarDataError::InvalidData);
                    },
                    Some(r) => { daily.push(r); },
                }
            },
            SlotKind::Other => {},
        }
    }
    assert(all_items.take(taken) =~= all_items);
    let speed = if speed.is_none() { legacy_value } else { speed };
    if speed.is_none() && smart.is_none() && daily.len() == 0 {
        return Err(RadarDataError::RecommendationUnavailable);
    }
    proof { lemma_picks_daily_is_untagged(all_items); }
    Ok(RadarRecommendations { speed, smart, daily_development: daily })
}

} // verus!
verus! {

/// Key of the efficiency cell holding one task's runs for one model and
/// effort: `task|model|effort`.
pub fn efficiency_cell_key(task_id: &str, model: &str, effort: &str) -> (key: String)
    ensures
        key@ == task_id@ + "|"@ + model@ + "|"@ + effort@,
{
    let mut key = String::from_str(task_id);
    key.append("|");
    key.append(model);
    key.append("|");
    key.append(effort);
    key
}

/// Whether a run's reported cost may enter a combination's average cost: at
/// the `ultra` effort only runs whose cost is marked complete count.
pub fn counts_run_cost(effort: &str, cost_complete: Option<bool>) -> (counts: bool)
    ensures
        counts == (effort@ != "ultra"@ || cost_complete == Some(true)),
{
    !same_text(effort, "ultra") || match cost_complete {
        Some(complete) => complete,
        None => false,
    }
}

/// Number of tasks with a known outcome among the first runs of `outcomes`.
pub open spec fn valid_count(outcomes: Seq<Option<bool>>) -> nat
    decreases outcomes.len(),
{
    if outcomes.len() == 0 {
        0
    } else {
        valid_count(outcomes.drop_last()) + if outcomes.last() is Some { 1nat } else { 0nat }
    }
}

/// Number of passed tasks among `outcomes`.
pub open spec fn passed_count(outcomes: Seq<Option<bool>>) -> nat
    decreases outcomes.len(),
{
    if outcomes.len() == 0 {
        0
    } else {
        passed_count(outcomes.drop_last()) + if outcomes.last() == Some(true) { 1nat } else { 0nat }
    }
}

/// A count held in a `u32`, sticking at `u32::MAX`.
pub open spec fn saturated(n: nat) -> u32 {
    if n > u32::MAX { u32::MAX } else { n as u32 }
}

/// Pass tally over the first run of each task: `(passed, valid)`, where a
/// task counts as valid when its outcome is known; `None` when no task has a
/// known outcome.
pub fn tally_first_runs(outcomes: &Vec<Option<bool>>) -> (tally: Option<(u32, u32)>)
    ensures
        valid_count(outcomes@) == 0 ==> tally is None,
        valid_count(outcomes@) > 0 ==> tally == Some(
            (saturated(passed_count(outcomes@)), saturated(valid_count(outcomes@))),
        ),
{
    let mut passed: u32 = 0;
    let mut valid: u32 = 0;
    let mut i: usize = 0;
    while i < outcomes.len()
        invariant
            0 <= i <= outcomes.len(),
            passed == saturated(passed_count(outcomes@.take(i as int))),
            valid == saturated(valid_count(outcomes@.take(i as int))),
            valid_count(outcomes@.take(i as int)) > 0 <==> valid > 0,
        decreases outcomes.len() - i,
    {
        proof {
            assert(outcomes@.take(i + 1).drop_last() =~= outcomes@.take(i as int));
        }
        match outcomes[i] {
            Some(p) => {
                valid = valid.saturating_add(1);
                if p {
                    passed = passed.saturating_add(1);
                }
            },
            None => {},
        }
        i += 1;
    }
    assert(outcomes@.take(outcomes.len() as int) =~= outcomes@);
    if valid == 0 {
        None
    } else {
        Some((passed, valid))
    }
}

} // verus!
verus! {

/// A sanitised label never exceeds 64 characters and holds no control
/// characters.
pub proof fn lemma_sanitized_label_is_clean(s: Seq<char>)
    ensures
        sanitized(s).len() <= 64,
        forall|i: int| 0 <= i < sanitized(s).len() ==> !is_control_spec(#[trigger] sanitized(s)[i]),
{
    let t = trim_end_ws(trim_start_ws(s));
    let f = t.filter(label_char());
    assert forall|i: int| 0 <= i < sanitized(s).len() implies !is_control_spec(#[trigger] sanitized(s)[i]) by {
        assert(sanitized(s) == cap_label(f));
        assert(i < f.len());
        assert(sanitized(s)[i] == f[i]);
        t.lemma_filter_pred(label_char(), i);
    }
}

} // verus!
