use tauri_overlay::backend_ops::BackendStateOps;
use tauri_overlay::cache_writer::{ReplayCacheWriteResult, ReplayCacheWriteSendError};
use tauri_overlay::game_launch_detector::{GameLaunchDetector, GameLaunchStatus};
use tauri_overlay::logging::{LogLevel, LoggingOps};
use tauri_overlay::path_manager::PathManagerOps;
use tauri_overlay::tauri_overlay_ops::{SystemCommands, TauriOverlayOps};

#[test]
fn detector_starts_a_minute_back() {
    let d = GameLaunchDetector::new(100_000);
    assert_eq!(d.status(), GameLaunchStatus::Unknown);
    assert!(d.replay_change_settled(100_000 - 60_000 + 15_000));
    assert!(!d.replay_change_settled(100_000 - 60_000 + 14_999));
    let early = GameLaunchDetector::new(10);
    assert!(!early.replay_change_settled(10));
}

#[test]
fn detector_game_start_and_end() {
    let mut d = GameLaunchDetector::new(0);
    d.observe_non_live_state();
    assert_eq!(d.update_display_time_status(5), GameLaunchStatus::Idle);
    assert_eq!(d.update_display_time_status(6), GameLaunchStatus::Started);
    assert_eq!(d.update_display_time_status(7), GameLaunchStatus::Started);
    assert_eq!(d.update_display_time_status(7), GameLaunchStatus::Started);
    assert_eq!(d.update_display_time_status(7), GameLaunchStatus::Started);
    assert_eq!(d.update_display_time_status(7), GameLaunchStatus::Ended);
    assert_eq!(d.update_display_time_status(3), GameLaunchStatus::Idle);
}

#[test]
fn detector_running_game() {
    let mut d = GameLaunchDetector::new(0);
    assert_eq!(d.update_display_time_status(1), GameLaunchStatus::Running);
    assert_eq!(d.update_display_time_status(2), GameLaunchStatus::Running);
}

#[test]
fn detector_popup_once_per_replay_count() {
    let mut d = GameLaunchDetector::new(0);
    assert!(d.should_attempt_popup(true, 3));
    assert!(!d.should_attempt_popup(false, 3));
    d.record_popup_shown(3);
    assert!(!d.should_attempt_popup(true, 3));
    assert!(d.should_attempt_popup(true, 4));
    assert_eq!(d.status(), GameLaunchStatus::Running);
}

#[test]
fn detector_new_replays_reset_settling() {
    let mut d = GameLaunchDetector::new(1_000_000);
    d.observe_replay_count(2, 2_000_000);
    assert!(!d.replay_change_settled(2_010_000));
    assert!(d.replay_change_settled(2_015_000));
    d.observe_replay_count(1, 3_000_000);
    assert!(d.replay_change_settled(2_015_000));
}

#[test]
fn log_formats() {
    assert_eq!(LoggingOps::format_display_time(7, 5, 9), "07:05:09");
    assert_eq!(LoggingOps::format_display_time(23, 59, 10), "23:59:10");
    assert_eq!(LoggingOps::format_display_time(123, 0, 0), "123:00:00");
    assert_eq!(LoggingOps::format_record_line("12", LogLevel::Info, "app", "hello"), "12 INFO  app - hello");
    assert_eq!(LoggingOps::format_record_line("12", LogLevel::Error, "app", "x"), "12 ERROR app - x");
    assert_eq!(LogLevel::Warn.as_str(), "WARN");
    for level in [LogLevel::Error, LogLevel::Warn, LogLevel::Info, LogLevel::Debug, LogLevel::Trace] {
        let line = LoggingOps::format_record_line("t", level, "g", "m");
        assert_eq!(&line[2..7].trim_end(), &level.as_str());
        assert_eq!(line.len(), "t ".len() + 5 + " g - m".len());
    }
}

#[test]
fn log_settings_and_rotation() {
    assert_eq!(LoggingOps::max_log_file_bytes(), 100 * 1024 * 1024);
    assert_eq!(LoggingOps::max_rolling_log_files(), 3);
    assert_eq!(LoggingOps::default_filter_directive_for(true), "trace");
    assert_eq!(LoggingOps::default_filter_directive_for(false), "info");
    assert_eq!(LoggingOps::default_log_style_directive(), "always");
    assert_eq!(LoggingOps::incoming_bytes(10), 11);
    assert!(!LoggingOps::needs_rotation(100, 10));
    assert!(!LoggingOps::needs_rotation(104857600 - 10, 10));
    assert!(LoggingOps::needs_rotation(104857600 - 10, 11));
    assert!(LoggingOps::needs_rotation(u64::MAX, 1));
    assert_eq!(LoggingOps::rotation_renames(3), vec![(1, 2), (0, 1)]);
    assert_eq!(LoggingOps::rotation_renames(1), Vec::<(usize, usize)>::new());
}

#[test]
fn backend_helpers() {
    assert_eq!(BackendStateOps::as_u32(5_000_000_000), u32::MAX);
    assert_eq!(BackendStateOps::relative_last_seen_text(0, Some(100)), "");
    assert_eq!(BackendStateOps::relative_last_seen_text(100, None), "");
    assert_eq!(BackendStateOps::relative_last_seen_text(100, Some(100)), "0 minutes ago");
    assert_eq!(BackendStateOps::relative_last_seen_text(100, Some(50)), "0 minutes ago");
    assert_eq!(BackendStateOps::relative_last_seen_text(1, Some(1 + 31_557_600 + 2 * 86_400 + 3 * 3_600 + 4 * 60 + 5)), "1 years 2 days 3 hours 4 minutes ago");
    assert_eq!(BackendStateOps::relative_last_seen_text(1, Some(1 + 2 * 86_400 + 30)), "2 days ago");
    assert_eq!(BackendStateOps::deadline_after(10, 5), 15);
    assert_eq!(BackendStateOps::deadline_after(u64::MAX, 5), u64::MAX);
    assert_eq!(BackendStateOps::first_win_bonus_hide_deadline(7, 100, 5), 7);
    assert_eq!(BackendStateOps::first_win_bonus_hide_deadline(0, 100, 5), 105);
    assert!(BackendStateOps::deadline_active(10, 9));
    assert!(!BackendStateOps::deadline_active(0, 9));
    assert!(BackendStateOps::deadline_elapsed(10, 10));
    assert!(!BackendStateOps::deadline_elapsed(0, 10));
    assert_eq!(BackendStateOps::latest_modified_time(5, 7), 7);
    assert_eq!(BackendStateOps::latest_modified_time(5, 3), 5);
    assert_eq!(BackendStateOps::latest_modified_time(5, 0), 5);
    assert_eq!(BackendStateOps::observed_time(0), None);
    assert_eq!(BackendStateOps::observed_time(9), Some(9));
}

#[test]
fn other_player_choice() {
    let pick = |a: bool, b: bool| BackendStateOps::select_other_player_for_stats(" Me ", "h1", " Ally ", "h2", a, b);
    assert_eq!(pick(true, false), Some(("h2".to_string(), "Ally".to_string())));
    assert_eq!(pick(false, true), Some(("h1".to_string(), "Me".to_string())));
    assert_eq!(pick(false, false), Some(("h2".to_string(), "Ally".to_string())));
    assert_eq!(BackendStateOps::select_other_player_for_stats("A", "h1", " ", "h2", true, false), None);
    assert_eq!(BackendStateOps::select_other_player_for_stats("A", "h1", " ", "h2", true, true), Some(("h1".to_string(), "A".to_string())));
    assert_eq!(BackendStateOps::select_other_player_for_stats("", "h1", "", "h2", false, false), None);
}

#[test]
fn cache_write_counts() {
    let mut r = ReplayCacheWriteResult::new();
    r.record_batch(3, Some(3), true);
    r.record_batch(2, None, true);
    r.record_batch(0, None, false);
    r.record_batch(4, None, false);
    assert_eq!(r.persisted_entries(), 3);
    assert_eq!(r.failed_batches(), 2);
    r.add_persisted_entries(usize::MAX);
    assert_eq!(r.persisted_entries(), usize::MAX);
    assert_eq!(ReplayCacheWriteSendError::Closed.message(), "cache writer queue is closed");
    assert_eq!(ReplayCacheWriteSendError::ResponseClosed.message(), "cache writer response channel is closed");
    assert_eq!(ReplayCacheWriteSendError::WriteFailed("disk".to_string()).message(), "disk");
}

#[test]
fn data_paths() {
    assert!(PathManagerOps::is_prod_env(Some("PRODUCTION"), true));
    assert!(!PathManagerOps::is_prod_env(Some("dev"), true));
    assert!(PathManagerOps::is_prod_env(None, false));
    assert!(PathManagerOps::is_dev_env(None, true));
    assert!(SystemCommands::is_dev(Some("test"), true));
    let win = PathManagerOps::write_data_dir(true, true, Some("C:/Local".to_string()), None, None);
    assert_eq!(win, vec!["C:/Local".to_string(), "SC2_Coop_Info".to_string()]);
    let home = PathManagerOps::write_data_dir(true, false, None, None, None);
    assert_eq!(home, vec!["./".to_string(), ".sc2_coop_info".to_string()]);
    let dev = PathManagerOps::write_data_dir(false, false, None, None, Some("/src".to_string()));
    assert_eq!(PathManagerOps::get_cache_path(dev.clone()), vec!["/src", "generated", "cache_overall_stats.json"]);
    assert_eq!(PathManagerOps::get_pretty_cache_path(dev.clone()), vec!["/src", "generated", "cache_overall_stats_pretty.json"]);
    assert_eq!(PathManagerOps::get_settings_path(dev.clone()), vec!["/src", "settings.json"]);
    assert_eq!(PathManagerOps::get_log_path(dev), vec!["/src", "logs.txt"]);
}

#[test]
fn autostart_names() {
    assert_eq!(TauriOverlayOps::legacy_windows_startup_registration_name(), "SCO Overlay");
    assert_eq!(TauriOverlayOps::autostart_registration_name(), "tauri_overlay");
    assert!(TauriOverlayOps::should_remove_legacy_windows_startup_registration());
}

#[test]
fn detector_never_reports_unknown_after_a_reading() {
    let mut d = GameLaunchDetector::new(0);
    assert_eq!(d.status(), GameLaunchStatus::Unknown);
    for t in [4, 4, 4, 4, 2, 9, 9] {
        let r = d.update_display_time_status(t);
        assert_ne!(r, GameLaunchStatus::Unknown);
    }
    let mut e = GameLaunchDetector::new(0);
    e.update_display_time_status(1);
    e.update_display_time_status(1);
    assert_eq!(e.update_display_time_status(1), GameLaunchStatus::Running);
    assert_eq!(e.update_display_time_status(1), GameLaunchStatus::Ended);
}
