use tauri_overlay::command_payloads::OverlayActionResponse;
use tauri_overlay::config_commands::{
    ConfigActionRequest, ConfigCommands, ConfigPlayersPageRequest, StatsActionKind, StatsCommands,
};
use tauri_overlay::games_page::{
    ConfigReplaysPageRequest, GamesPageReplayOps, GamesRowFields, ReplayCommands,
    DEFAULT_CONFIG_ROWS_PER_PAGE,
};
use tauri_overlay::monitor_settings::{
    monitor_catalog_from_descriptors, normalize_monitor_descriptors, resolve_monitor_descriptors,
    selected_monitor_descriptor, selected_monitor_index, MonitorDescriptor,
};
use tauri_overlay::performance_overlay::{PerformanceGeometry, PerformanceOverlayOps, MIN_WINDOW_HEIGHT, MIN_WINDOW_WIDTH};
use tauri_overlay::player_info::{
    PlayerInfoRefreshMode, PlayerInfoRefreshPlan, PlayerInfoSourceRow, PlayerInfoTally, PlayerInfoWrite,
};
use tauri_overlay::query_types::{
    ReplayCacheDifficultyFilter, ReplayCacheGameSortKey, ReplayCachePlayerNote, ReplayCachePlayerSortKey,
    ReplayCacheSortDirection,
};

#[test]
fn players_page_defaults_and_request() {
    let (q, path) = ConfigCommands::players_page_query(None, Vec::new());
    assert_eq!(path, "/config/players?page=1&rows_per_page=300&search=");
    assert_eq!((q.page().offset(), q.page().limit()), (0, 300));
    assert_eq!(q.sort_key(), ReplayCachePlayerSortKey::LastSeen);
    assert_eq!(q.sort_direction(), ReplayCacheSortDirection::Desc);
    let req = ConfigPlayersPageRequest {
        limit: Some(50),
        page: Some(3),
        rows_per_page: None,
        search: Some("zer".to_string()),
        sort_key: Some(" wins ".to_string()),
        sort_direction: Some("ASC".to_string()),
    };
    let notes = vec![ReplayCachePlayerNote::new("1-S2-1-1".to_string(), "ally".to_string())];
    let (q, path) = ConfigCommands::players_page_query(Some(req), notes);
    assert_eq!(path, "/config/players?page=3&rows_per_page=50&search=zer");
    assert_eq!((q.page().offset(), q.page().limit()), (100, 50));
    assert_eq!(q.search(), "zer");
    assert_eq!(q.sort_key(), ReplayCachePlayerSortKey::Wins);
    assert_eq!(q.sort_direction(), ReplayCacheSortDirection::Asc);
    assert_eq!(q.notes().len(), 1);
    let zero = ConfigPlayersPageRequest { rows_per_page: Some(0), page: Some(0), ..Default::default() };
    let (q, _) = ConfigCommands::players_page_query(Some(zero), Vec::new());
    assert_eq!((q.page().offset(), q.page().limit()), (0, 300));
}

#[test]
fn config_actions_are_sorted() {
    match ConfigCommands::config_action_request("set_player_note".to_string(), Some("h".to_string()), None, None) {
        ConfigActionRequest::SetPlayerNote { player, note } => {
            assert_eq!(player, "h");
            assert_eq!(note, "");
        }
        _ => panic!("expected a note"),
    }
    match ConfigCommands::config_action_request("set_latest_today_win_bonus_time".to_string(), None, None, Some("t".to_string())) {
        ConfigActionRequest::SetLatestTodayWinBonusTime { time } => assert_eq!(time, "t"),
        _ => panic!("expected a time"),
    }
    match ConfigCommands::config_action_request("show".to_string(), None, None, None) {
        ConfigActionRequest::Overlay { action } => assert_eq!(action, "show"),
        _ => panic!("expected an overlay action"),
    }
}

#[test]
fn config_responses() {
    let r = ConfigCommands::player_note_response("  ");
    assert_eq!(r, OverlayActionResponse::success("Player note cleared.".to_string()));
    assert_eq!(ConfigCommands::player_note_response(" x ").message, "Player note saved.");
    let r = ConfigCommands::unsupported_action_response("fly");
    assert!(!r.result.ok);
    assert_eq!(r.status, "ok");
    assert_eq!(r.message, "Unsupported action: fly");
    assert!(ConfigCommands::latest_today_win_bonus_time_response().result.ok);
    let r = OverlayActionResponse::failure_with_path("m".to_string(), "p".to_string());
    assert_eq!(r.result.path, Some("p".to_string()));
}

#[test]
fn first_win_bonus_time_is_normalized_to_utc() {
    assert_eq!(
        ConfigCommands::latest_today_win_bonus_time(" 2024-01-01T10:00:00+02:00 "),
        Ok("2024-01-01T08:00:00Z".to_string())
    );
    assert_eq!(
        ConfigCommands::latest_today_win_bonus_time("2024-01-01T10:00:00.750Z"),
        Ok("2024-01-01T10:00:00Z".to_string())
    );
    assert_eq!(
        ConfigCommands::latest_today_win_bonus_time("yesterday"),
        Err("Invalid latest first win bonus time".to_string())
    );
}

#[test]
fn stats_commands() {
    assert_eq!(StatsCommands::stats_request_path(None), "/config/stats");
    assert_eq!(StatsCommands::stats_request_path(Some("  ".to_string())), "/config/stats");
    assert_eq!(StatsCommands::stats_request_path(Some("a=1".to_string())), "/config/stats?a=1");
    assert_eq!(StatsCommands::stats_action_kind("dump_data"), StatsActionKind::DumpData);
    assert_eq!(StatsCommands::stats_action_kind("reveal_file"), StatsActionKind::RevealFile);
    assert_eq!(StatsCommands::stats_action_kind("Dump_Data"), StatsActionKind::Unsupported);
    assert!(StatsCommands::should_request_detailed_stop(true, true));
    assert!(!StatsCommands::should_request_detailed_stop(true, false));
    assert_eq!(StatsCommands::stop_detailed_analysis_message(None), "Detailed analysis is not running.");
    assert_eq!(StatsCommands::reveal_file_message("f", Some(Ok(()))), "Revealing file: f");
    assert_eq!(StatsCommands::reveal_file_message("f", Some(Err("no".to_string()))), "Unable to reveal file: no");
    assert_eq!(StatsCommands::reveal_file_message("f", None), "No replay file specified to reveal.");
    assert_eq!(StatsCommands::dump_data_message("d.json", None), "Data dumped to d.json");
    assert_eq!(StatsCommands::dump_data_message("d", Some((true, "e".to_string()))), "Failed to serialize dump: e");
    assert_eq!(StatsCommands::dump_data_message("d", Some((false, "e".to_string()))), "Failed to write dump: e");
    assert_eq!(StatsCommands::action_outcome_message(StatsActionKind::DumpData, "dump_data"), (true, "Action processed".to_string()));
    assert_eq!(
        StatsCommands::action_outcome_message(StatsActionKind::Unsupported, "x"),
        (false, "Unsupported action: x".to_string())
    );
}

#[test]
fn replays_page_defaults_and_request() {
    let (q, path) = ReplayCommands::replays_page_query(None);
    assert_eq!(path, format!("/config/replays?page=1&rows_per_page={}&search=", DEFAULT_CONFIG_ROWS_PER_PAGE));
    assert_eq!(q.difficulty_filters(), ReplayCacheDifficultyFilter::all().as_slice());
    assert_eq!(q.sort_key(), ReplayCacheGameSortKey::Time);
    assert!(q.include_normal_games() && q.include_mutation_games());
    let req = ConfigReplaysPageRequest {
        page: Some(2),
        rows_per_page: Some(0),
        sort_key: Some("map".to_string()),
        difficulty_filters: Some(vec![" Hard ".to_string(), "nonsense".to_string(), "BrutalPlus2".to_string()]),
        include_mutation_games: Some(false),
        ..Default::default()
    };
    let (q, path) = ReplayCommands::replays_page_query(Some(req));
    assert_eq!(path, "/config/replays?page=2&rows_per_page=1&search=");
    assert_eq!((q.page().offset(), q.page().limit()), (1, 1));
    assert_eq!(q.sort_key(), ReplayCacheGameSortKey::MapName);
    assert_eq!(q.difficulty_filters(), &[ReplayCacheDifficultyFilter::Hard, ReplayCacheDifficultyFilter::BrutalPlus2]);
    assert!(q.include_normal_games() && !q.include_mutation_games());
}

fn row() -> GamesRowFields {
    GamesRowFields {
        file: "Game.SC2Replay".to_string(),
        result: "Victory".to_string(),
        map: "Void Launch".to_string(),
        difficulty: " Hard ".to_string(),
        enemy: "Zerg".to_string(),
        slot1_name: "Alice".to_string(),
        slot1_commander: "Raynor".to_string(),
        slot2_name: "Bob".to_string(),
        slot2_commander: "Kerrigan".to_string(),
        mutators: vec!["Walking Infested".to_string()],
        weekly: false,
        brutal_plus: 0,
        date: 10,
        length_key: 600,
    }
}

#[test]
fn games_row_filters() {
    let r = row();
    assert!(GamesPageReplayOps::matches_mode_filter(&r, false, true));
    assert!(!GamesPageReplayOps::matches_mode_filter(&r, true, false));
    assert!(!GamesPageReplayOps::matches_mode_filter(&r, false, false));
    assert!(GamesPageReplayOps::matches_single_difficulty_filter(&r, ReplayCacheDifficultyFilter::Hard));
    assert!(!GamesPageReplayOps::matches_single_difficulty_filter(&r, ReplayCacheDifficultyFilter::Brutal));
    let mut b = row();
    b.brutal_plus = 4;
    assert!(GamesPageReplayOps::matches_single_difficulty_filter(&b, ReplayCacheDifficultyFilter::BrutalPlus4));
    assert!(!GamesPageReplayOps::matches_single_difficulty_filter(&b, ReplayCacheDifficultyFilter::Hard));
    assert!(!GamesPageReplayOps::matches_difficulty_filter(&r, &[]));
    assert!(GamesPageReplayOps::matches_difficulty_filter(&b, &ReplayCacheDifficultyFilter::all()));
    assert!(GamesPageReplayOps::matches_difficulty_filter(&r, &[ReplayCacheDifficultyFilter::Casual, ReplayCacheDifficultyFilter::Hard]));
    assert!(GamesPageReplayOps::contains_search("Void Launch", "launch"));
    assert!(GamesPageReplayOps::matches_search(&r, "  INFESTED "));
    assert!(GamesPageReplayOps::matches_search(&r, "   "));
    assert!(!GamesPageReplayOps::matches_search(&r, "protoss"));
    let (q, _) = ReplayCommands::replays_page_query(Some(ConfigReplaysPageRequest {
        search: Some("bob".to_string()),
        ..Default::default()
    }));
    assert!(GamesPageReplayOps::matches_query(&r, &q));
}

#[test]
fn merged_pages() {
    assert_eq!(GamesPageReplayOps::merged_page_window(40, 20, 3), (37, 23, 3));
    assert_eq!(GamesPageReplayOps::merged_page_window(2, 20, 5), (0, 25, 2));
    assert_eq!(GamesPageReplayOps::merged_total_rows(usize::MAX, 1), usize::MAX);
    assert_eq!(GamesPageReplayOps::merged_total_rows(10, 2), 12);
}

fn game(result: &str, apm: Option<u32>, commander: &str, date: u64) -> PlayerInfoSourceRow {
    PlayerInfoSourceRow {
        result: result.to_string(),
        apm,
        commander: commander.to_string(),
        date_seconds: date,
        kills: None,
        replay_total_kills: 0,
    }
}

#[test]
fn player_tally() {
    assert!(PlayerInfoTally::from_rows(&[]).is_none());
    assert!(PlayerInfoTally::from_rows(&[game("unknown", Some(100), "Nova", 5)]).is_none());
    let rows = vec![
        game("Victory", Some(100), "Nova", 5),
        game(" defeat ", None, "Raynor", 9),
        game("win", Some(50), "Nova", 7),
        game("?", Some(999), "Zagara", 99),
        game("0", Some(10), "", 12),
    ];
    let t = PlayerInfoTally::from_rows(&rows).unwrap();
    assert_eq!((t.wins, t.losses, t.valid_games), (2, 2, 4));
    assert_eq!((t.apm_total, t.apm_games), (160, 3));
    assert_eq!(t.latest_commander, "Raynor");
    assert_eq!(t.commander_games, 1);
    assert_eq!(t.latest_played_time, 12);
    assert_eq!(rows[1].is_win(), Some(false));
    assert_eq!(rows[3].is_win(), None);
}

#[test]
fn refresh_plan_prefers_full_refresh() {
    let mut plan = PlayerInfoRefreshPlan::new();
    plan.add_kill_ratio_handles(vec!["a".to_string(), "b".to_string()]);
    let mut other = PlayerInfoRefreshPlan::new();
    other.add_full_handles(vec!["b".to_string(), "c".to_string()]);
    plan.extend(other);
    let modes = plan.modes_by_handle();
    assert_eq!(modes.len(), 3);
    assert_eq!(modes.get("a"), Some(&PlayerInfoRefreshMode::KillRatio));
    assert_eq!(modes.get("b"), Some(&PlayerInfoRefreshMode::Full));
    assert_eq!(modes.get("c"), Some(&PlayerInfoRefreshMode::Full));
}

fn monitor(name: &str, x: i32, y: i32) -> MonitorDescriptor {
    MonitorDescriptor::new(name.to_string(), x, y, 1920, 1080)
}

#[test]
fn monitors_are_sorted_and_named() {
    let out = normalize_monitor_descriptors(vec![monitor("", 1920, 0), monitor(" ", 0, 0), monitor("B", 0, 0)]);
    let names: Vec<&str> = out.iter().map(|m| m.name()).collect();
    assert_eq!(names, vec!["Monitor 1", "B", "Monitor 3"]);
    assert_eq!(out[2].position_x(), 1920);
    let catalog = monitor_catalog_from_descriptors(&out);
    assert_eq!(catalog[1].index, 2);
    assert_eq!(catalog[1].label, "2 - B");
}

#[test]
fn runtime_monitors_take_system_names() {
    let runtime = vec![monitor("", 1920, 0), monitor("", 0, 0)];
    let named = vec![monitor("DELL", 0, 0), monitor("LG", 1920, 0)];
    let out = resolve_monitor_descriptors(runtime, named);
    let names: Vec<&str> = out.iter().map(|m| m.name()).collect();
    assert_eq!(names, vec!["DELL", "LG"]);
    let only_named = resolve_monitor_descriptors(Vec::new(), vec![monitor("", 5, 5)]);
    assert_eq!(only_named[0].name(), "Monitor 1");
}

#[test]
fn monitor_selection() {
    assert_eq!(selected_monitor_index(1, 0), None);
    assert_eq!(selected_monitor_index(0, 3), Some(0));
    assert_eq!(selected_monitor_index(2, 3), Some(1));
    assert_eq!(selected_monitor_index(9, 3), Some(2));
    let ms = vec![monitor("A", 0, 0), monitor("B", 1, 0)];
    assert_eq!(selected_monitor_descriptor(&ms, 2).map(|m| m.name()), Some("B"));
}

#[test]
fn performance_window_geometry() {
    assert_eq!(PerformanceOverlayOps::required_window_height(Some(4)), MIN_WINDOW_HEIGHT);
    assert_eq!(PerformanceOverlayOps::required_window_height(Some(32)), 430 + 32 * 28);
    assert_eq!(PerformanceOverlayOps::required_window_height(None), 430 + 16 * 28);
    let m = MonitorDescriptor::new("A".to_string(), 100, 50, 1920, 1080);
    let g = PerformanceOverlayOps::default_geometry(&m, Some(8));
    assert_eq!((g.x(), g.y(), g.width(), g.height()), (100 + 1920 - 780 - 24, 230, 780, 860));
    let g = PerformanceGeometry::new(1, 2, 10, 10).normalized(Some(1));
    assert_eq!((g.x(), g.y(), g.width(), g.height()), (1, 2, MIN_WINDOW_WIDTH, MIN_WINDOW_HEIGHT));
}

#[test]
fn player_summary_refresh_writes() {
    let none: Vec<PlayerInfoSourceRow> = Vec::new();
    assert!(matches!(PlayerInfoRefreshPlan::refresh_write(PlayerInfoRefreshMode::Full, &none), PlayerInfoWrite::DeleteInfo));
    let unread = vec![game("?", None, "Nova", 1)];
    assert!(matches!(PlayerInfoRefreshPlan::refresh_write(PlayerInfoRefreshMode::KillRatio, &unread), PlayerInfoWrite::EnsureInfo));
    let rows = vec![game("win", Some(90), "Nova", 1), game("loss", None, "Nova", 2)];
    match PlayerInfoRefreshPlan::refresh_write(PlayerInfoRefreshMode::Full, &rows) {
        PlayerInfoWrite::UpsertAggregate(t) => assert_eq!((t.wins, t.losses, t.commander_games), (1, 1, 2)),
        _ => panic!("expected a full write"),
    }
    assert!(matches!(
        PlayerInfoRefreshPlan::refresh_write(PlayerInfoRefreshMode::KillRatio, &rows),
        PlayerInfoWrite::UpdateKillRatio(_)
    ));
}

#[test]
fn resolved_monitors_keep_runtime_geometry() {
    let runtime = vec![
        MonitorDescriptor::new(String::new(), 1920, 0, 2560, 1440),
        MonitorDescriptor::new(String::new(), 0, 0, 1920, 1080),
        MonitorDescriptor::new(String::new(), 0, 1080, 1280, 720),
    ];
    let named = vec![monitor("DELL", 0, 0), monitor("  ", 1920, 0)];
    let out = resolve_monitor_descriptors(runtime, named);
    assert_eq!(out.len(), 3);
    let mut geometry: Vec<(i32, i32, u32, u32)> =
        out.iter().map(|m| (m.position_x(), m.position_y(), m.width(), m.height())).collect();
    geometry.sort();
    assert_eq!(geometry, vec![(0, 0, 1920, 1080), (0, 1080, 1280, 720), (1920, 0, 2560, 1440)]);
    assert!(out.iter().all(|m| !m.name().trim().is_empty()));
    assert_eq!(out[0].name(), "DELL");
}
