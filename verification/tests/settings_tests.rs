use tauri_overlay::app_settings::{AppSettings, AppSettingsFields, AppSettingsOps};
use tauri_overlay::overlay_info::ResolvedHotkeyBinding;

fn defaults() -> AppSettings {
    AppSettings::default_with("C:/Accounts".to_string(), "en".to_string(), Some(8))
}

fn fields() -> AppSettingsFields {
    AppSettingsFields {
        start_with_windows: false,
        minimize_to_tray: true,
        start_minimized: true,
        auto_update: true,
        duration: 0,
        show_player_winrates: true,
        show_replay_info_after_game: true,
        show_session: true,
        show_charts: false,
        hide_nicknames_in_overlay: false,
        account_folder: "  ".to_string(),
        screenshot_folder: " /shots ".to_string(),
        color_player1: " #111111 ".to_string(),
        color_player2: "   ".to_string(),
        color_amon: "#FF0000".to_string(),
        color_mastery: "#FFDC87".to_string(),
        hotkey_show_hide: None,
        hotkey_show: Some("  ".to_string()),
        hotkey_hide: Some("Ctrl + H".to_string()),
        hotkey_newer: Some("Ctrl+Backspace".to_string()),
        hotkey_older: None,
        hotkey_winrates: None,
        enable_logging: true,
        dark_theme: true,
        language: "ko".to_string(),
        monitor: 2,
        performance_show: true,
        performance_hotkey: None,
        performance_processes: vec!["  ".to_string(), " game.exe ".to_string()],
        performance_geometry: Some([10, 20, 100, 200]),
        rng_choices: vec![("Raynor".to_string(), true)],
        player_notes: vec![("Alice#1-S2-1-234".to_string(), "good ally".to_string())],
        main_names: vec![],
        detailed_analysis_atstart: false,
        analysis_worker_threads: 99,
    }
}

#[test]
fn default_settings_values() {
    let s = defaults();
    assert!(!s.start_with_windows());
    assert!(s.minimize_to_tray());
    assert!(s.auto_update());
    assert_eq!(s.duration(), 30);
    assert_eq!(s.account_folder(), "C:/Accounts");
    assert_eq!(s.screenshot_folder(), "");
    assert_eq!(s.color_player1(), "#0080F8");
    assert_eq!(s.color_player2(), "#00D532");
    assert_eq!(s.color_amon(), "#FF0000");
    assert_eq!(s.color_mastery(), "#FFDC87");
    assert_eq!(s.hotkey_show_hide(), Some("Ctrl+Shift+8"));
    assert_eq!(s.hotkey_show(), None);
    assert_eq!(s.hotkey_hide(), None);
    assert_eq!(s.hotkey_newer(), Some("Ctrl+Alt+/"));
    assert_eq!(s.hotkey_older(), Some("Ctrl+Alt+8"));
    assert_eq!(s.hotkey_winrates(), Some("Ctrl+Alt+-"));
    assert!(s.enable_logging());
    assert!(s.dark_theme());
    assert_eq!(s.language(), "en");
    assert_eq!(s.monitor(), 1);
    assert!(!s.performance_show());
    assert_eq!(s.analysis_worker_threads(), 4);
    assert_eq!(s.present_keys().len(), 0);
}

#[test]
fn worker_thread_counts() {
    assert_eq!(AppSettings::logical_core_count(None), 1);
    assert_eq!(AppSettings::default_analysis_worker_threads(Some(8)), 4);
    assert_eq!(AppSettings::default_analysis_worker_threads(Some(1)), 1);
    assert_eq!(AppSettings::default_analysis_worker_threads(None), 1);
    assert_eq!(AppSettings::simple_analysis_worker_threads(Some(6)), 3);
    assert_eq!(AppSettings::clamp_analysis_worker_threads(0, Some(8)), 1);
    assert_eq!(AppSettings::clamp_analysis_worker_threads(99, Some(8)), 8);
    assert_eq!(AppSettings::clamp_analysis_worker_threads(5, Some(8)), 5);
}

#[test]
fn clamped_workers_stay_in_range() {
    for cores in 1..10usize {
        for value in 0..20usize {
            let c = AppSettings::clamp_analysis_worker_threads(value, Some(cores));
            assert!(c >= 1 && c <= cores);
        }
    }
}

#[test]
fn language_from_locale_takes_first_part() {
    assert_eq!(AppSettingsOps::language_from_locale(Some("ko-KR")), "ko");
    assert_eq!(AppSettingsOps::language_from_locale(Some("en")), "en");
    assert_eq!(AppSettingsOps::language_from_locale(Some("-US")), "en");
    assert_eq!(AppSettingsOps::language_from_locale(None), "en");
}

#[test]
fn system_language_is_a_language_part() {
    let lang = AppSettingsOps::get_system_language();
    assert!(!lang.is_empty());
    assert!(!lang.contains('-'));
}

#[test]
fn retired_keys_and_u32() {
    assert!(AppSettingsOps::is_retired_setting_key("fast_expand"));
    assert!(AppSettingsOps::is_retired_setting_key("force_hide_overlay"));
    assert!(!AppSettingsOps::is_retired_setting_key("duration"));
    assert_eq!(AppSettingsOps::as_u32(7), 7);
    assert_eq!(AppSettingsOps::as_u32(u64::MAX), u32::MAX);
}

#[test]
fn merge_sets_hotkeys_threads_and_saved_names() {
    let loaded = AppSettings::from_fields(fields());
    let names = vec!["duration".to_string(), "fast_expand".to_string(), "hotkey_show".to_string()];
    let s = AppSettings::merge_settings_with_defaults(Some(loaded), defaults(), &names, Some(8));
    assert_eq!(s.analysis_worker_threads(), 8);
    assert_eq!(s.hotkey_show_hide(), Some("Ctrl+Shift+8"));
    assert_eq!(s.hotkey_show(), Some("  "));
    assert!(s.has("duration"));
    assert!(s.has("hotkey_show"));
    assert!(!s.has("fast_expand"));
    assert_eq!(s.present_keys().len(), 2);
}

#[test]
fn merge_without_loaded_settings_uses_defaults() {
    let s = AppSettings::merge_settings_with_defaults(None, defaults(), &[], Some(2));
    assert_eq!(s.duration(), 30);
    assert_eq!(s.analysis_worker_threads(), 2);
}

#[test]
fn initialize_unset_hotkeys_is_idempotent() {
    let mut s = AppSettings::from_fields(fields());
    s.initialize_unset_hotkeys();
    let first = (s.hotkey_show_hide().map(str::to_string), s.hotkey_older().map(str::to_string));
    s.initialize_unset_hotkeys();
    assert_eq!((s.hotkey_show_hide().map(str::to_string), s.hotkey_older().map(str::to_string)), first);
    assert_eq!(s.hotkey_hide(), Some("Ctrl + H"));
}

#[test]
fn setting_changes_are_found_by_name() {
    let a = defaults();
    let b = defaults().with_enable_logging(false);
    assert!(AppSettings::setting_value_changed(&a, &b, "enable_logging"));
    assert!(!AppSettings::setting_value_changed(&a, &b, "duration"));
    assert!(!AppSettings::setting_value_changed(&a, &b, "no_such_setting"));
    assert!(AppSettings::any_setting_changed(&a, &b, &["duration", "enable_logging"]));
    assert!(!AppSettings::any_setting_changed(&a, &b, &["duration", "language"]));
    assert!(!AppSettings::any_setting_changed(&a, &a, &["enable_logging", "hotkey_show/hide", "player_notes"]));
}

#[test]
fn setters_and_builders() {
    let mut s = defaults();
    s.set_enable_logging(false);
    assert!(!s.enable_logging());
    s.set_detailed_analysis_atstart(true);
    assert!(s.detailed_analysis_atstart());
    let s = s.with_detailed_analysis_atstart(false);
    assert!(!s.detailed_analysis_atstart());
    let mut s = s;
    s.set_performance_geometry(Some([1, 2, 3, 4]));
    assert_eq!(s.performance_geometry(), Some([1, 2, 3, 4]));
}

#[test]
fn player_notes_are_saved_read_and_cleared() {
    let mut s = AppSettings::from_fields(fields());
    assert_eq!(s.player_note("Alice#1-S2-1-234"), Some("good ally".to_string()));
    // Same handle key, other spelling: the existing key is used.
    s.update_player_note("  alice#1-s2-1-234 ", "  solid  ").unwrap();
    assert_eq!(s.player_notes().len(), 1);
    assert_eq!(s.player_note("Alice#1-S2-1-234"), Some("solid".to_string()));
    // A new handle is filed under its cleaned form.
    s.update_player_note(" <b>Bob</b>-S2-1-9 ", "hi").unwrap();
    assert_eq!(s.player_notes().len(), 2);
    assert_eq!(s.player_note("Bob -S2-1-9"), Some("hi".to_string()));
    // A blank note clears it.
    s.update_player_note("Alice#1-S2-1-234", "   ").unwrap();
    assert_eq!(s.player_note("Alice#1-S2-1-234"), None);
    assert_eq!(s.player_notes().len(), 1);
}

#[test]
fn player_note_without_handle_is_refused() {
    let mut s = defaults();
    assert_eq!(s.update_player_note("NoMarkerHere", "x"), Err("Handle is empty".to_string()));
    assert_eq!(s.update_player_note("   ", "x"), Err("Handle is empty".to_string()));
}

#[test]
fn configured_main_handles_from_folder_names() {
    let s = defaults();
    let names = vec!["1-S2-1-111".to_string(), "Hotkeys".to_string(), " 2-s2-3-222 ".to_string()];
    let handles = s.configured_main_handles(&names);
    assert_eq!(handles.len(), 2);
    assert!(handles.contains("1-s2-1-111"));
    assert!(handles.contains("2-s2-3-222"));
    let no_folder = AppSettings::from_fields(fields());
    assert_eq!(no_folder.configured_main_handles(&names).len(), 0);
}

#[test]
fn runtime_flags_only_start_minimized_into_tray() {
    let s = AppSettings::from_fields(fields());
    let f = s.runtime_flags();
    assert!(f.start_minimized());
    assert!(f.minimize_to_tray());
    assert!(f.auto_update());
    let mut g = fields();
    g.minimize_to_tray = false;
    let f = AppSettings::from_fields(g).runtime_flags();
    assert!(!f.start_minimized());
}

#[test]
fn hotkey_candidates_follow_settings_and_defaults() {
    let s = AppSettings::from_fields(fields());
    let c = s.overlay_hotkey_candidates();
    let got: Vec<(&str, &str, String)> = c.iter().map(|c| (c.path, c.action, c.shortcut.clone())).collect();
    assert_eq!(
        got,
        vec![
            ("hotkey_show/hide", "overlay_show_hide", "control+shift+8".to_string()),
            ("hotkey_hide", "overlay_hide", "control+h".to_string()),
            ("hotkey_older", "overlay_older", "control+alt+8".to_string()),
            ("hotkey_winrates", "overlay_player_stats", "control+alt+-".to_string()),
        ]
    );
}

#[test]
fn reassign_end_prefers_resolved_binding() {
    let s = AppSettings::from_fields(fields());
    let resolved = vec![ResolvedHotkeyBinding::new("hotkey_hide", "overlay_hide", "control+h".to_string(), "ctrl+h".to_string())];
    let fallback = ResolvedHotkeyBinding::new("hotkey_hide", "overlay_hide", "x".to_string(), "x".to_string());
    let r = s.hotkey_binding_for_reassign_end(&resolved, "hotkey_hide", Some(&fallback)).unwrap();
    assert_eq!(r.shortcut(), "control+h");
    // Not resolved, not switched off: the fallback for the same setting.
    let r = s.hotkey_binding_for_reassign_end(&[], "hotkey_hide", Some(&fallback)).unwrap();
    assert_eq!(r.shortcut(), "x");
    // A fallback for another setting is not used.
    assert!(s.hotkey_binding_for_reassign_end(&[], "hotkey_show", Some(&fallback)).is_none());
}

#[test]
fn reassign_end_respects_saved_blank_binding() {
    let loaded = AppSettings::from_fields(fields());
    let s = AppSettings::merge_settings_with_defaults(Some(loaded), defaults(), &["hotkey_show".to_string()], Some(4));
    let fallback = ResolvedHotkeyBinding::new("hotkey_show", "overlay_show", "x".to_string(), "x".to_string());
    assert!(s.hotkey_binding_for_reassign_end(&[], "hotkey_show", Some(&fallback)).is_none());
}

#[test]
fn screenshot_path() {
    let s = AppSettings::from_fields(fields());
    assert_eq!(
        s.overlay_screenshot_output_path(Ok(1700000000)),
        Ok(("/shots".to_string(), "overlay-1700000000.png".to_string()))
    );
    assert_eq!(
        s.overlay_screenshot_output_path(Err("clock".to_string())),
        Err("Failed to build screenshot timestamp: clock".to_string())
    );
    assert_eq!(
        defaults().overlay_screenshot_output_path(Ok(1)),
        Err("Screenshot folder is not configured".to_string())
    );
}

#[test]
fn overlay_payload_values() {
    let s = AppSettings::from_fields(fields());
    let p = s.overlay_runtime_settings_payload(3, u64::MAX);
    assert_eq!(p.colors, [Some("#111111".to_string()), None, Some("#FF0000".to_string()), Some("#FFDC87".to_string())]);
    assert_eq!(p.duration, 1);
    assert!(!p.show_charts);
    assert!(p.show_session);
    assert_eq!(p.session_victory, 3);
    assert_eq!(p.session_defeat, u32::MAX);
    assert_eq!(p.language, "ko");
    assert_eq!(defaults().overlay_language(), "en");
    assert_eq!(defaults().overlay_duration(), 30);
}

#[test]
fn performance_settings() {
    let s = AppSettings::from_fields(fields());
    assert!(s.performance_show_enabled());
    assert_eq!(s.performance_process_names(), vec!["game.exe".to_string()]);
    assert_eq!(defaults().performance_process_names(), vec!["SC2_x64.exe".to_string(), "SC2.exe".to_string()]);
    let g = s.saved_performance_geometry(Some(4)).unwrap();
    assert_eq!((g.x(), g.y()), (10, 20));
    assert_eq!(g.width(), 760);
    assert!(g.height() >= 200);
    let mut f = fields();
    f.performance_geometry = Some([0, 0, -1, 5]);
    assert!(AppSettings::from_fields(f).saved_performance_geometry(Some(4)).is_none());
    assert!(defaults().saved_performance_geometry(None).is_none());
}

#[test]
fn normalized_worker_threads_of_settings() {
    let s = AppSettings::from_fields(fields());
    assert_eq!(s.normalized_analysis_worker_threads(Some(16)), 16);
    assert_eq!(s.normalized_analysis_worker_threads(Some(200)), 99);
}

#[test]
fn finished_settings_finish_to_themselves() {
    let names = vec!["duration".to_string(), "force_hide_overlay".to_string()];
    let once = AppSettings::merge_settings_with_defaults(Some(AppSettings::from_fields(fields())), defaults(), &names, Some(3));
    let summary = |s: &AppSettings| {
        (
            s.analysis_worker_threads(),
            s.hotkey_show_hide().map(str::to_string),
            s.hotkey_newer().map(str::to_string),
            s.duration(),
            s.present_keys().len(),
            s.has("duration"),
        )
    };
    let first = summary(&once);
    let twice = AppSettings::merge_settings_with_defaults(Some(once), defaults(), &names, Some(3));
    assert_eq!(summary(&twice), first);
}

#[test]
fn account_link_stems_carry_main_names() {
    assert_eq!(AppSettings::link_stem_main_name("Alice_1-S2-1-234@2"), Some("Alice".to_string()));
    assert_eq!(AppSettings::link_stem_main_name("Bob_x_y@z"), Some("Bob".to_string()));
    assert_eq!(AppSettings::link_stem_main_name("_x@y"), Some(String::new()));
    assert_eq!(AppSettings::link_stem_main_name("Alice@2"), None);
    assert_eq!(AppSettings::link_stem_main_name("Alice_2"), None);
}

#[test]
fn configured_main_names_fall_back_to_account_links() {
    let s = defaults();
    let links = vec!["alice".to_string(), String::new(), "bob".to_string()];
    let mains = vec![String::new(), "carol".to_string(), "carol".to_string()];
    let names = s.configured_main_names(&mains, &links);
    assert_eq!(names.len(), 1);
    assert!(names.contains("carol"));
    let names = s.configured_main_names(&[String::new()], &links);
    assert_eq!(names.len(), 2);
    assert!(names.contains("alice"));
    assert!(names.contains("bob"));
    let no_folder = AppSettings::from_fields(fields());
    assert_eq!(no_folder.configured_main_names(&[], &links).len(), 0);
}

#[test]
fn merged_settings_keep_saved_names_and_bound_workers() {
    let saved = vec!["duration".to_string(), "fast_expand".to_string(), "force_hide_overlay".to_string()];
    let r = AppSettings::merge_settings_with_defaults(Some(AppSettings::from_fields(fields())), defaults(), &saved, Some(4));
    assert!(r.analysis_worker_threads() >= 1 && r.analysis_worker_threads() <= 4);
    assert!(r.hotkey_show_hide().is_some());
    assert!(r.hotkey_older().is_some());
    assert!(r.hotkey_winrates().is_some());
    assert_eq!(r.language(), "ko");
    assert_eq!(r.present_keys().len(), 1);
    assert!(r.present_keys().contains("duration"));
    assert!(!r.present_keys().contains("fast_expand"));
}
