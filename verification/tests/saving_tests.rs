use tauri_overlay::app_settings::AppSettingsOps;
use tauri_overlay::cache_saving::{CachePlayerIdentity, ReplayCacheSaveOps, StatisticsPlayerFactRecord};
use tauri_overlay::logging::LoggingOps;
use tauri_overlay::db_columns::{CacheCountValue, ProtocolBuildValue, ReplayCacheColumns};
use tauri_overlay::games_page::{ConfigReplaysPageRequest, GamesPageReplayOps, GamesRowFields, ReplayCommands};
use tauri_overlay::query_types::ReplayCacheGamesPageQuery;

fn game(file: &str, map: &str, date: u64, length_key: u64) -> GamesRowFields {
    GamesRowFields {
        file: file.to_string(),
        result: "Victory".to_string(),
        map: map.to_string(),
        difficulty: "Brutal".to_string(),
        enemy: "Zerg".to_string(),
        slot1_name: "Alice".to_string(),
        slot1_commander: "Raynor".to_string(),
        slot2_name: "Bob".to_string(),
        slot2_commander: "Nova".to_string(),
        mutators: vec!["Just Die!".to_string(), "Avenger".to_string()],
        weekly: false,
        brutal_plus: 0,
        date,
        length_key,
    }
}

fn query(sort_key: &str, direction: &str) -> ReplayCacheGamesPageQuery {
    let (q, _) = ReplayCommands::replays_page_query(Some(ConfigReplaysPageRequest {
        sort_key: Some(sort_key.to_string()),
        sort_direction: Some(direction.to_string()),
        ..Default::default()
    }));
    q
}

fn files(rows: &[GamesRowFields]) -> Vec<&str> {
    rows.iter().map(|r| r.file.as_str()).collect()
}

#[test]
fn sort_texts() {
    let g = game("A.SC2Replay", "Void Launch", 1, 1);
    assert_eq!(GamesPageReplayOps::sort_text(&g, tauri_overlay::query_types::ReplayCacheGameSortKey::PlayerOne), "alice raynor");
    assert_eq!(GamesPageReplayOps::sort_text(&g, tauri_overlay::query_types::ReplayCacheGameSortKey::Mutators), "just die! avenger");
    assert_eq!(GamesPageReplayOps::sort_text(&g, tauri_overlay::query_types::ReplayCacheGameSortKey::Time), "");
}

#[test]
fn rows_compare_by_key_then_date_then_file() {
    let a = game("a", "Lock", 5, 300);
    let b = game("b", "lock", 7, 200);
    let q = query("map", "asc");
    // same map text: the newer replay first, whatever the direction
    assert_eq!(GamesPageReplayOps::compare_rows(&a, &b, &q), 1);
    assert_eq!(GamesPageReplayOps::compare_rows(&b, &a, &q), -1);
    let q = query("length", "asc");
    assert_eq!(GamesPageReplayOps::compare_primary(&a, &b, &q), 1);
    let q = query("length", "desc");
    assert_eq!(GamesPageReplayOps::compare_rows(&a, &b, &q), -1);
    let c = game("c", "Lock", 5, 300);
    let q = query("time", "asc");
    assert_eq!(GamesPageReplayOps::compare_rows(&a, &c, &q), -1);
    assert_eq!(GamesPageReplayOps::compare_rows(&a, &a, &q), 0);
}

#[test]
fn rows_sort_stably() {
    let rows = vec![game("x", "B", 1, 0), game("y", "a", 3, 0), game("z", "b", 1, 0), game("w", "C", 2, 0)];
    let sorted = GamesPageReplayOps::sort_rows(rows, &query("map", "asc"));
    assert_eq!(files(&sorted), vec!["y", "z", "x", "w"]);
    let rows = vec![game("x", "B", 1, 0), game("y", "a", 3, 0), game("w", "C", 2, 0)];
    let sorted = GamesPageReplayOps::sort_rows(rows, &query("time", "desc"));
    assert_eq!(files(&sorted), vec!["y", "w", "x"]);
    let sorted = GamesPageReplayOps::sort_rows(Vec::new(), &query("time", "desc"));
    assert!(sorted.is_empty());
}

#[test]
fn merged_page_sorts_all_then_pages() {
    let (q, _) = ReplayCommands::replays_page_query(Some(ConfigReplaysPageRequest {
        page: Some(2),
        rows_per_page: Some(2),
        ..Default::default()
    }));
    // the page starts at row 2; with one transient row the cached window starts at row 1
    let cached = vec![game("c1", "m", 30, 0), game("c2", "m", 10, 0)];
    let transient = vec![game("t1", "m", 20, 0)];
    let (rows, total) = GamesPageReplayOps::merged_page(cached, 7, transient, &q);
    assert_eq!(files(&rows), vec!["t1", "c2"]);
    assert_eq!(total, 8);
}

#[test]
fn column_conversions() {
    assert_eq!(ReplayCacheColumns::bool_to_i64(true), 1);
    assert!(!ReplayCacheColumns::i64_to_bool(0));
    assert!(ReplayCacheColumns::i64_to_bool(-3));
    assert_eq!(ReplayCacheColumns::u64_to_i64(u64::MAX), i64::MAX);
    assert_eq!(ReplayCacheColumns::usize_to_i64(12), 12);
    assert_eq!(ReplayCacheColumns::i64_to_u64(-1), 0);
    assert_eq!(ReplayCacheColumns::i64_to_u32(1 << 40), 0);
    assert_eq!(ReplayCacheColumns::i64_to_u32(77), 77);
}

#[test]
fn count_and_build_columns_round_trip() {
    let c = CacheCountValue::Count(12);
    let (kind, count) = ReplayCacheColumns::count_value_columns(&c);
    assert_eq!((kind, count), ("count", Some(12)));
    assert_eq!(ReplayCacheColumns::count_value_from_kind_and_count(kind.to_string(), count), c);
    let h = CacheCountValue::Hidden("?".to_string());
    assert_eq!(ReplayCacheColumns::count_value_columns(&h), ("hidden", None));
    assert_eq!(
        ReplayCacheColumns::count_value_from_kind_and_count("hidden".to_string(), None),
        CacheCountValue::Hidden("-".to_string())
    );
    assert_eq!(ReplayCacheColumns::count_value_from_kind_and_count("other".to_string(), None), CacheCountValue::Count(0));
    assert_eq!(ReplayCacheColumns::unit_count_fact_columns(&h), (1, 0));
    assert_eq!(ReplayCacheColumns::unit_count_fact_columns(&c), (0, 12));
    for b in [ProtocolBuildValue::Int(80949), ProtocolBuildValue::Str("5.0.13".to_string())] {
        let (k, i, t) = ReplayCacheColumns::protocol_build_columns(&b);
        assert_eq!(ReplayCacheColumns::protocol_build_from_columns(k, i, t), b);
    }
    assert_eq!(ReplayCacheColumns::protocol_build_from_columns("text", None, None), ProtocolBuildValue::Str(String::new()));
    assert_eq!(ReplayCacheColumns::protocol_build_from_columns("integer", Some(-5), None), ProtocolBuildValue::Int(0));
}

#[test]
fn contains_patterns() {
    assert_eq!(ReplayCacheColumns::sqlite_contains_pattern("  Ab_C%d\\ "), "%ab\\_c\\%d\\\\%");
    assert_eq!(ReplayCacheColumns::sqlite_contains_pattern(""), "%%");
}

fn player(pid: u8, handle: Option<&str>, name: Option<&str>) -> CachePlayerIdentity {
    CachePlayerIdentity {
        pid,
        handle: handle.map(str::to_string),
        name: name.map(str::to_string),
        commander: None,
        kills: None,
    }
}

#[test]
fn saved_player_handles() {
    let players = vec![
        player(0, Some("0-S2-1-1"), None),
        player(1, Some(" 1-S2-1-5 "), Some(" Alice ")),
        player(2, Some("   "), Some("Bob")),
        player(3, None, None),
        player(4, Some("2-S2-1-9"), None),
    ];
    assert_eq!(ReplayCacheSaveOps::player_handles(&players), vec!["1-S2-1-5".to_string(), "2-S2-1-9".to_string()]);
    assert_eq!(ReplayCacheSaveOps::player_name(&players[1]), "Alice");
    assert_eq!(ReplayCacheSaveOps::player_name(&players[3]), "");
    assert_eq!(ReplayCacheSaveOps::player_handle(&players[2]), "");
}

#[test]
fn upsert_decisions() {
    assert!(ReplayCacheSaveOps::keeps_existing_detailed(true, Some(true), false));
    assert!(!ReplayCacheSaveOps::keeps_existing_detailed(false, Some(true), false));
    assert!(!ReplayCacheSaveOps::keeps_existing_detailed(true, None, false));
    assert!(ReplayCacheSaveOps::refreshes_kill_ratio_only(true, Some(false), true));
    assert!(!ReplayCacheSaveOps::refreshes_kill_ratio_only(true, Some(true), true));
    let v = |x: &[&str]| x.iter().map(|s| s.to_string()).collect::<Vec<_>>();
    let kept = ReplayCacheSaveOps::upsert_refresh_plan(v(&["f"]), v(&["e"]), v(&["n"]), true, Some(true), false);
    let modes = kept.modes_by_handle();
    assert_eq!(modes.len(), 1);
    let upgraded = ReplayCacheSaveOps::upsert_refresh_plan(v(&["f"]), v(&["e"]), v(&["n", "f"]), true, Some(false), true);
    let modes = upgraded.modes_by_handle();
    assert_eq!(modes.len(), 3);
    assert_eq!(modes.get("e"), Some(&tauri_overlay::player_info::PlayerInfoRefreshMode::KillRatio));
    assert_eq!(modes.get("f"), Some(&tauri_overlay::player_info::PlayerInfoRefreshMode::Full));
    let replaced = ReplayCacheSaveOps::upsert_refresh_plan(v(&[]), v(&["e"]), v(&["n"]), false, Some(true), false);
    assert_eq!(replaced.modes_by_handle().get("n"), Some(&tauri_overlay::player_info::PlayerInfoRefreshMode::Full));
}

#[test]
fn replay_root_texts() {
    assert_eq!(AppSettingsOps::replay_root_texts("  \"' "), None);
    assert_eq!(
        AppSettingsOps::replay_root_texts(" \"C:\\Users\\me\\SC2\" "),
        Some((
            "C:\\Users\\me\\SC2".to_string(),
            "C:/Users/me/SC2".to_string(),
            Some("/mnt/c/Users/me/SC2".to_string())
        ))
    );
    assert_eq!(
        AppSettingsOps::replay_root_texts("/home/me/sc2"),
        Some(("/home/me/sc2".to_string(), "\\home\\me\\sc2".to_string(), None))
    );
    assert_eq!(
        AppSettingsOps::replay_root_texts("D:"),
        Some(("D:".to_string(), "D:".to_string(), Some("/mnt/d/".to_string())))
    );
}

#[test]
fn replay_root_candidates() {
    assert!(AppSettingsOps::build_replay_root_candidates("   ").is_empty());
    let c = AppSettingsOps::build_replay_root_candidates("plain");
    assert_eq!(c, vec!["plain".to_string()]);
    let c = AppSettingsOps::build_replay_root_candidates("C:\\Games\\SC2");
    assert_eq!(c[0], "C:\\Games\\SC2");
    assert_eq!(c.last().map(|s| s.as_str()), Some("/mnt/c/Games/SC2"));
}

#[test]
fn statistics_player_facts() {
    let mut p = player(1, Some(" 1-S2-1-5 "), Some("Alice"));
    assert!(StatisticsPlayerFactRecord::from_player(&p).is_none());
    p.commander = Some(" han and horner ".to_string());
    p.kills = Some(u64::MAX);
    let f = StatisticsPlayerFactRecord::from_player(&p).unwrap();
    assert_eq!(f.player_handle_key, "1-s2-1-5");
    assert_eq!(f.commander, "Han & Horner");
    assert_eq!(f.player_kills, i64::MAX);
    p.pid = 3;
    assert!(StatisticsPlayerFactRecord::from_player(&p).is_none());
    let mut q = player(2, Some("bob"), None);
    q.commander = Some("Custom".to_string());
    let f = StatisticsPlayerFactRecord::from_player(&q).unwrap();
    assert_eq!((f.player_handle_key.as_str(), f.commander.as_str(), f.player_kills), ("", "Custom", 0));
}

#[test]
fn handles_by_slot_and_collected() {
    let players = vec![player(0, Some("a"), None), player(2, Some(" b "), None), player(1, None, None)];
    assert_eq!(ReplayCacheSaveOps::player_handles_by_pid(&players), vec![(2, "b".to_string())]);
    let handles = vec!["x".to_string(), "  ".to_string(), "".to_string(), " y ".to_string()];
    assert_eq!(ReplayCacheSaveOps::collect_player_handles(handles), vec!["x".to_string(), " y ".to_string()]);
}

#[test]
fn rolling_log_names() {
    assert_eq!(LoggingOps::rolling_log_file_name(Some("logs.txt"), Some("logs"), Some("txt"), 2), Some("logs.2.txt".to_string()));
    assert_eq!(LoggingOps::rolling_log_file_name(Some("logs.txt"), Some("logs"), Some("txt"), 0), None);
    assert_eq!(LoggingOps::rolling_log_file_name(None, None, None, 1), None);
    assert_eq!(LoggingOps::rolling_log_file_name(Some("log"), Some("log"), None, 1), Some("log.1".to_string()));
}

#[test]
fn windows_startup_registration() {
    let add = AppSettingsOps::startup_registration_args(true, "\"C:\\sco.exe\" --minimized");
    assert_eq!(
        add,
        vec![
            "add",
            "HKCU\\Software\\Microsoft\\Windows\\CurrentVersion\\Run",
            "/v",
            "SCO Overlay",
            "/t",
            "REG_SZ",
            "/d",
            "\"C:\\sco.exe\" --minimized",
            "/f"
        ]
    );
    let delete = AppSettingsOps::startup_registration_args(false, "ignored");
    assert_eq!(delete, vec!["delete", "HKCU\\Software\\Microsoft\\Windows\\CurrentVersion\\Run", "/v", "SCO Overlay", "/f"]);
    assert_eq!(AppSettingsOps::startup_registration_outcome(true, true, Some(0)), Ok(()));
    assert_eq!(AppSettingsOps::startup_registration_outcome(false, false, Some(1)), Ok(()));
    assert_eq!(
        AppSettingsOps::startup_registration_outcome(true, false, Some(1)),
        Err("reg add exited with status 1".to_string())
    );
    assert_eq!(
        AppSettingsOps::startup_registration_outcome(false, false, None),
        Err("reg delete exited with status unknown".to_string())
    );
    assert_eq!(
        AppSettingsOps::startup_registration_outcome(false, false, Some(-3)),
        Err("reg delete exited with status -3".to_string())
    );
}

#[test]
fn replay_root_candidates_follow_path_comparison() {
    assert!(AppSettingsOps::replay_root_candidates_from("  ", true, true).is_empty());
    assert_eq!(
        AppSettingsOps::replay_root_candidates_from("\"C:\\SC2\\Accounts\"", true, true),
        vec!["C:\\SC2\\Accounts".to_string(), "C:/SC2/Accounts".to_string(), "/mnt/c/SC2/Accounts".to_string()]
    );
    assert_eq!(
        AppSettingsOps::replay_root_candidates_from("/home/u/acc", true, true),
        vec!["/home/u/acc".to_string(), "\\home\\u\\acc".to_string()]
    );
    assert_eq!(
        AppSettingsOps::replay_root_candidates_from("C:\\SC2", false, true),
        vec!["C:\\SC2".to_string(), "/mnt/c/SC2".to_string()]
    );
    assert_eq!(AppSettingsOps::replay_root_candidates_from("plain", true, true), vec!["plain".to_string()]);
}
