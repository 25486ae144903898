use vstd::prelude::*;

use crate::app_settings::{before_first, chars_before};
use crate::player_info::{is_win_spec, result_outcome};
use crate::query_types::{
    ReplayCacheReadScope, ReplayCacheStatsDifficultyExclusion, ReplayCacheStatsQuery, StatsQueryView,
};
use crate::text::{
    chars_eq_str, chars_of, contains_chars, contains_seq, lower_chars, lower_seq, trim_seq, trimmed_chars,
};

verus! {

/// One player of a cached replay, as the statistics filter reads it: the handle, the
/// commander level and the mastery points invested.
#[derive(Clone, Debug)]
pub struct StatsSnapshotPlayer {
    pub handle: String,
    pub commander_level: u64,
    pub mastery_points: u64,
}

/// A cached replay, as the statistics filter reads it.
#[derive(Clone, Debug)]
pub struct StatsSnapshotFacts {
    pub detailed_analysis: bool,
    pub extension: bool,
    pub result: String,
    pub date_seconds: u64,
    pub brutal_plus: u64,
    pub difficulty: String,
    pub main: StatsSnapshotPlayer,
    pub ally: StatsSnapshotPlayer,
}

/// What the filter takes as given about a replay, because it rests on a real-valued length,
/// on the player directory, on name patterns or on the map dictionary.
#[derive(Clone, Copy, Debug)]
pub struct StatsSnapshotChecks {
    /// The game is shorter than the query's shortest length.
    pub shorter_than_min: bool,
    /// The game is longer than the query's longest length.
    pub longer_than_max: bool,
    /// The user has main handles.
    pub has_main_handles: bool,
    /// The main player is one of the user's handles.
    pub main_is_main: bool,
    /// The ally is one of the user's handles.
    pub ally_is_main: bool,
    /// The query's player pattern matches the main player's or the ally's name.
    pub player_filter_matches: bool,
    /// The map is a known co-op map.
    pub map_known: bool,
}

/// The region of a toon handle, by the number before its first `-`.
pub open spec fn handle_region(handle: Seq<char>) -> Option<Seq<char>> {
    let code = trim_seq(before_first(handle, '-'));
    if code == "1"@ {
        Some("NA"@)
    } else if code == "2"@ {
        Some("EU"@)
    } else if code == "3"@ || code == "8"@ {
        Some("KR"@)
    } else if code == "5"@ || code == "6"@ {
        Some("CN"@)
    } else if code == "98"@ {
        Some("PTR"@)
    } else {
        None
    }
}

/// The replay's region: the main player's, else the ally's.
pub open spec fn snapshot_region(s: StatsSnapshotFacts) -> Option<Seq<char>> {
    match handle_region(s.main.handle@) {
        Some(r) => Some(r),
        None => handle_region(s.ally.handle@),
    }
}

/// Whether a difficulty exclusion leaves the replay out: a Brutal+ level by the replay's
/// level; the plain Brutal label not for a Brutal+ game; any other label when the
/// replay's difficulty text holds it.
pub open spec fn exclusion_rejects(s: StatsSnapshotFacts, e: ReplayCacheStatsDifficultyExclusion) -> bool {
    match e {
        ReplayCacheStatsDifficultyExclusion::BrutalPlus1 => s.brutal_plus == 1,
        ReplayCacheStatsDifficultyExclusion::BrutalPlus2 => s.brutal_plus == 2,
        ReplayCacheStatsDifficultyExclusion::BrutalPlus3 => s.brutal_plus == 3,
        ReplayCacheStatsDifficultyExclusion::BrutalPlus4 => s.brutal_plus == 4,
        ReplayCacheStatsDifficultyExclusion::BrutalPlus5 => s.brutal_plus == 5,
        ReplayCacheStatsDifficultyExclusion::BrutalPlus6 => s.brutal_plus == 6,
        ReplayCacheStatsDifficultyExclusion::Brutal => s.brutal_plus == 0 && contains_seq(s.difficulty@, "Brutal"@),
        ReplayCacheStatsDifficultyExclusion::Casual => contains_seq(s.difficulty@, "Casual"@),
        ReplayCacheStatsDifficultyExclusion::Normal => contains_seq(s.difficulty@, "Normal"@),
        ReplayCacheStatsDifficultyExclusion::Hard => contains_seq(s.difficulty@, "Hard"@),
        ReplayCacheStatsDifficultyExclusion::Other(l) => contains_seq(s.difficulty@, l@),
    }
}

/// Whether the region filter lets the replay through: no region is excluded, or the replay
/// has a known region that no exclusion names (trimmed, in any ASCII case).
pub open spec fn region_passes(s: StatsSnapshotFacts, excluded: Seq<String>) -> bool {
    excluded.len() == 0 || (snapshot_region(s) matches Some(r) && forall|i: int|
        0 <= i < excluded.len() ==> lower_seq(trim_seq(#[trigger] excluded[i]@)) != lower_seq(r))
}

/// Whether a cached replay passes the query's checks of single values: scope, kind, result,
/// length, date, levels, masteries, main players and player pattern.
pub open spec fn snapshot_values_pass(s: StatsSnapshotFacts, q: StatsQueryView, c: StatsSnapshotChecks) -> bool {
    &&& !(q.scope == ReplayCacheReadScope::DetailedOnly && !s.detailed_analysis)
    &&& (s.extension ==> q.include_mutations)
    &&& (!s.extension ==> q.include_normal_games)
    &&& is_win_spec(s.result@) matches Some(won) && (won ==> q.include_wins) && (!won ==> q.include_losses)
    &&& !(q.min_length_seconds > 0 && c.shorter_than_min)
    &&& !(q.max_length_seconds > 0 && c.longer_than_max)
    &&& (q.min_date_seconds matches Some(m) ==> s.date_seconds > m)
    &&& (q.max_date_seconds matches Some(m) ==> s.date_seconds < m)
    &&& (s.main.commander_level < 15 ==> q.include_sub_15)
    &&& (s.main.commander_level >= 15 ==> q.include_over_15)
    &&& (s.ally.commander_level < 15 ==> q.include_ally_sub_15)
    &&& (s.ally.commander_level >= 15 ==> q.include_ally_over_15)
    &&& (s.main.mastery_points <= 90 ==> q.include_main_normal_mastery)
    &&& (s.main.mastery_points > 90 ==> q.include_main_abnormal_mastery)
    &&& (s.ally.mastery_points <= 90 ==> q.include_ally_normal_mastery)
    &&& (s.ally.mastery_points > 90 ==> q.include_ally_abnormal_mastery)
    &&& !(c.has_main_handles && !q.include_both_main && c.main_is_main && c.ally_is_main)
    &&& (q.player_filter.len() > 0 ==> c.player_filter_matches)
}

/// Whether a cached replay passes the statistics query.
pub open spec fn snapshot_matches_spec(s: StatsSnapshotFacts, q: StatsQueryView, c: StatsSnapshotChecks) -> bool {
    &&& snapshot_values_pass(s, q, c)
    &&& forall|i: int|
        0 <= i < q.difficulty_exclusions.len() ==> !exclusion_rejects(s, #[trigger] q.difficulty_exclusions[i])
    &&& region_passes(s, q.region_exclusions)
    &&& c.map_known
}

fn handle_region_exec(handle: &str) -> (r: Option<&'static str>)
    ensures
        match r {
            Some(x) => handle_region(handle@) == Some(x@),
            None => handle_region(handle@) is None,
        },
{
    let v = chars_of(handle);
    let code_chars = chars_before(&v, '-');
    let code_text = crate::text::string_from_chars(&code_chars);
    let code = trimmed_chars(code_text.as_str());
    if chars_eq_str(&code, "1") {
        Some("NA")
    } else if chars_eq_str(&code, "2") {
        Some("EU")
    } else if chars_eq_str(&code, "3") || chars_eq_str(&code, "8") {
        Some("KR")
    } else if chars_eq_str(&code, "5") || chars_eq_str(&code, "6") {
        Some("CN")
    } else if chars_eq_str(&code, "98") {
        Some("PTR")
    } else {
        None
    }
}

fn text_contains(text: &str, part: &str) -> (r: bool)
    ensures
        r == contains_seq(text@, part@),
{
    contains_chars(&chars_of(text), &chars_of(part))
}

fn exclusion_rejects_exec(s: &StatsSnapshotFacts, e: &ReplayCacheStatsDifficultyExclusion) -> (r: bool)
    ensures
        r == exclusion_rejects(*s, *e),
{
    match e.brutal_plus_level() {
        Some(level) => {
            return s.brutal_plus == level as u64;
        },
        None => {},
    }
    if s.brutal_plus > 0 && e.is_brutal_label() {
        return false;
    }
    match e.difficulty_label() {
        Some(label) => text_contains(s.difficulty.as_str(), label),
        None => false,
    }
}

fn region_passes_exec(s: &StatsSnapshotFacts, excluded: &[String]) -> (r: bool)
    ensures
        r == region_passes(*s, excluded@),
{
    if excluded.len() == 0 {
        return true;
    }
    let region = match handle_region_exec(s.main.handle.as_str()) {
        Some(r) => r,
        None => match handle_region_exec(s.ally.handle.as_str()) {
            Some(r) => r,
            None => {
                return false;
            },
        },
    };
    let region_lower = lower_chars(&chars_of(region));
    for i in 0..excluded.len()
        invariant
            region_lower@ == lower_seq(region@),
            snapshot_region(*s) == Some(region@),
            forall|j: int| 0 <= j < i ==> lower_seq(trim_seq(#[trigger] excluded@[j]@)) != lower_seq(region@),
    {
        let t = lower_chars(&trimmed_chars(excluded[i].as_str()));
        if crate::text::chars_eq(&t, &region_lower) {
            return false;
        }
    }
    true
}

fn snapshot_values_pass_exec(s: &StatsSnapshotFacts, q: &ReplayCacheStatsQuery, c: StatsSnapshotChecks) -> (r: bool)
    ensures
        r == snapshot_values_pass(*s, q@, c),
{
    if q.scope() == ReplayCacheReadScope::DetailedOnly && !s.detailed_analysis {
        return false;
    }
    if !q.include_mutations() && s.extension {
        return false;
    }
    if !q.include_normal_games() && !s.extension {
        return false;
    }
    let won = match result_outcome(s.result.as_str()) {
        Some(w) => w,
        None => {
            return false;
        },
    };
    if !q.include_wins() && won {
        return false;
    }
    if !q.include_losses() && !won {
        return false;
    }
    if q.min_length_seconds() > 0 && c.shorter_than_min {
        return false;
    }
    if q.max_length_seconds() > 0 && c.longer_than_max {
        return false;
    }
    match q.min_date_seconds() {
        Some(m) => if s.date_seconds <= m {
            return false;
        },
        None => {},
    }
    match q.max_date_seconds() {
        Some(m) => if s.date_seconds >= m {
            return false;
        },
        None => {},
    }
    if !q.include_sub_15() && s.main.commander_level < 15 {
        return false;
    }
    if !q.include_over_15() && s.main.commander_level >= 15 {
        return false;
    }
    if !q.include_ally_sub_15() && s.ally.commander_level < 15 {
        return false;
    }
    if !q.include_ally_over_15() && s.ally.commander_level >= 15 {
        return false;
    }
    if !q.include_main_normal_mastery() && s.main.mastery_points <= 90 {
        return false;
    }
    if !q.include_main_abnormal_mastery() && s.main.mastery_points > 90 {
        return false;
    }
    if !q.include_ally_normal_mastery() && s.ally.mastery_points <= 90 {
        return false;
    }
    if !q.include_ally_abnormal_mastery() && s.ally.mastery_points > 90 {
        return false;
    }
    if c.has_main_handles && !q.include_both_main() && c.main_is_main && c.ally_is_main {
        return false;
    }
    if chars_of(q.player_filter()).len() > 0 && !c.player_filter_matches {
        return false;
    }
    true
}

/// Whether a cached replay passes the statistics query (see [`snapshot_matches_spec`]).
pub fn stats_snapshot_matches_query(
    s: &StatsSnapshotFacts,
    q: &ReplayCacheStatsQuery,
    c: StatsSnapshotChecks,
) -> (r: bool)
    ensures
        r == snapshot_matches_spec(*s, q@, c),
{
    if !snapshot_values_pass_exec(s, q, c) {
        return false;
    }
    let exclusions = q.difficulty_exclusions();
    for i in 0..exclusions.len()
        invariant
            exclusions@ == q@.difficulty_exclusions,
            forall|j: int| 0 <= j < i ==> !exclusion_rejects(*s, #[trigger] q@.difficulty_exclusions[j]),
    {
        if exclusion_rejects_exec(s, &exclusions[i]) {
            return false;
        }
    }
    if !region_passes_exec(s, q.region_exclusions()) {
        return false;
    }
    c.map_known
}

} // verus!
