use tauri_overlay::query_types::{ReplayCacheReadScope, ReplayCacheStatsDifficultyExclusion, ReplayCacheStatsQuery};
use tauri_overlay::stats_snapshot::{stats_snapshot_matches_query, StatsSnapshotChecks, StatsSnapshotFacts, StatsSnapshotPlayer};

fn player(handle: &str, level: u64, mastery: u64) -> StatsSnapshotPlayer {
    StatsSnapshotPlayer { handle: handle.to_string(), commander_level: level, mastery_points: mastery }
}

fn snapshot() -> StatsSnapshotFacts {
    StatsSnapshotFacts {
        detailed_analysis: true,
        extension: false,
        result: " Victory ".to_string(),
        date_seconds: 100,
        brutal_plus: 0,
        difficulty: "Brutal".to_string(),
        main: player("2-S2-1-11", 15, 90),
        ally: player("1-S2-1-22", 10, 91),
    }
}

fn checks() -> StatsSnapshotChecks {
    StatsSnapshotChecks {
        shorter_than_min: false,
        longer_than_max: false,
        has_main_handles: true,
        main_is_main: true,
        ally_is_main: false,
        player_filter_matches: true,
        map_known: true,
    }
}

fn query() -> ReplayCacheStatsQuery {
    ReplayCacheStatsQuery::new(ReplayCacheReadScope::All, 0)
}

#[test]
fn snapshot_passes_a_default_query() {
    assert!(stats_snapshot_matches_query(&snapshot(), &query(), checks()));
    let mut c = checks();
    c.map_known = false;
    assert!(!stats_snapshot_matches_query(&snapshot(), &query(), c));
    let mut s = snapshot();
    s.result = "draw".to_string();
    assert!(!stats_snapshot_matches_query(&s, &query(), checks()));
}

#[test]
fn snapshot_filters_by_result_date_and_difficulty() {
    let q = query().with_result_filters(false, true);
    assert!(!stats_snapshot_matches_query(&snapshot(), &q, checks()));
    let q = query().with_date_seconds(Some(100), None);
    assert!(!stats_snapshot_matches_query(&snapshot(), &q, checks()));
    let q = query().with_date_seconds(Some(99), Some(101));
    assert!(stats_snapshot_matches_query(&snapshot(), &q, checks()));
    let q = query().with_difficulty_exclusions(vec![ReplayCacheStatsDifficultyExclusion::Brutal]);
    assert!(!stats_snapshot_matches_query(&snapshot(), &q, checks()));
    let mut s = snapshot();
    s.brutal_plus = 3;
    assert!(stats_snapshot_matches_query(&s, &q, checks()));
    let q = query().with_difficulty_exclusions(vec![ReplayCacheStatsDifficultyExclusion::BrutalPlus3]);
    assert!(!stats_snapshot_matches_query(&s, &q, checks()));
    let q = query().with_length_seconds(60, 0);
    let mut c = checks();
    c.shorter_than_min = true;
    assert!(!stats_snapshot_matches_query(&snapshot(), &q, c));
}

#[test]
fn snapshot_filters_by_region() {
    let q = query().with_region_exclusions(vec![" eu ".to_string()]);
    assert!(!stats_snapshot_matches_query(&snapshot(), &q, checks()));
    let q = query().with_region_exclusions(vec!["NA".to_string()]);
    assert!(stats_snapshot_matches_query(&snapshot(), &q, checks()));
    let mut s = snapshot();
    s.main.handle = "7-S2-1-1".to_string();
    assert!(!stats_snapshot_matches_query(&s, &q, checks()));
    s.ally.handle = "98-S2-1-1".to_string();
    assert!(stats_snapshot_matches_query(&s, &q, checks()));
}
