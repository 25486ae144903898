use tauri_overlay::active_window::{ActiveWindowDetector, ActiveWindowInfo, ActiveWindowRect, PlatformActiveWindowDetector, PlatformWindow};
use tauri_overlay::app_settings::AppSettings;
use tauri_overlay::overlay_info::{OverlayInfoOps, OverlayReplayPayload, ResolvedHotkeyBinding, RuntimeFlags};
use tauri_overlay::shared_types::LocalizedLabels;
use tauri_overlay::text_map::TextMap;

#[test]
fn hotkeys_are_normalized() {
    assert_eq!(OverlayInfoOps::normalize_hotkey(" Ctrl + Shift + 8 "), Some("control+shift+8".to_string()));
    assert_eq!(OverlayInfoOps::normalize_hotkey("cmd+alt+*"), Some("super+alt+8".to_string()));
    assert_eq!(OverlayInfoOps::normalize_hotkey("Ctrl+Delete"), None);
    assert_eq!(OverlayInfoOps::normalize_hotkey("   "), None);
}

#[test]
fn replay_moves_stay_in_the_list() {
    assert_eq!(OverlayInfoOps::replay_move_target_index(5, Some(2), 1, true), 1);
    assert_eq!(OverlayInfoOps::replay_move_target_index(5, Some(2), 10, true), 0);
    assert_eq!(OverlayInfoOps::replay_move_target_index(5, Some(2), -1, true), 3);
    assert_eq!(OverlayInfoOps::replay_move_target_index(5, Some(2), i64::MIN, true), 4);
    assert_eq!(OverlayInfoOps::replay_move_target_index(5, None, 0, true), 0);
    assert_eq!(OverlayInfoOps::replay_move_target_index(0, None, -3, true), 0);
    assert_eq!(OverlayInfoOps::replay_move_target_index(5, Some(3), -1, false), 0);
    for delta in -7i64..7 {
        for sel in 0..5usize {
            assert!(OverlayInfoOps::replay_move_target_index(5, Some(sel), delta, true) < 5);
        }
    }
}

#[test]
fn replay_move_ignored_when_staying() {
    assert!(OverlayInfoOps::replay_move_should_be_ignored(Some(2), 2, true));
    assert!(!OverlayInfoOps::replay_move_should_be_ignored(Some(2), 2, false));
    assert!(!OverlayInfoOps::replay_move_should_be_ignored(None, 0, true));
}

#[test]
fn runtime_flags_and_bindings() {
    let f = RuntimeFlags::new(true, false, true);
    assert!(f.start_minimized() && !f.minimize_to_tray() && f.auto_update());
    let b = ResolvedHotkeyBinding::new("hotkey_show", "overlay_show", "control+s".to_string(), "ctrl+s".to_string());
    let c = b.duplicate();
    assert_eq!((c.path(), c.action(), c.shortcut(), c.canonical()), ("hotkey_show", "overlay_show", "control+s", "ctrl+s"));
    let s = AppSettings::default_with(String::new(), "en".to_string(), Some(2));
    let flags = OverlayInfoOps::parse_runtime_flags(&s);
    assert!(!flags.start_minimized() && flags.minimize_to_tray() && flags.auto_update());
}

#[test]
fn prestige_texts() {
    assert_eq!(OverlayReplayPayload::localized_prestige_text(0), "");
    assert_eq!(OverlayReplayPayload::localized_prestige_text(2), "P2");
    let names = TextMap::from_pairs(vec![(
        "Raynor".to_string(),
        LocalizedLabels {
            en: vec!["Rebel".to_string(), "Backwater Marshal".to_string()],
            ko: vec!["반란군".to_string()],
        },
    )]);
    assert_eq!(OverlayReplayPayload::localized_prestige_text_with_dictionary("Raynor", 1, "en", &names, None), "Backwater Marshal");
    // Korean falls back to English when the Korean list is short.
    assert_eq!(OverlayReplayPayload::localized_prestige_text_with_dictionary("Raynor", 1, "ko", &names, None), "Backwater Marshal");
    assert_eq!(OverlayReplayPayload::localized_prestige_text_with_dictionary("<b>Raynor</b>", 1, "en", &names, None), "Backwater Marshal");
    assert_eq!(OverlayReplayPayload::localized_prestige_text_with_dictionary("Nova", 3, "en", &names, Some("Other".to_string())), "Other");
    assert_eq!(OverlayReplayPayload::localized_prestige_text_with_dictionary("Nova", 3, "en", &names, None), "P3");
    assert_eq!(OverlayReplayPayload::localized_prestige_text_with_dictionary("Raynor", 0, "en", &names, None), "");
}

#[test]
fn replay_for_display_by_path_then_name() {
    let files = vec!["/r/a.SC2Replay".to_string(), "/r/b.SC2Replay".to_string()];
    assert_eq!(OverlayInfoOps::replay_for_display(&files, Some(" /r/b.SC2Replay "), None), Some(1));
    assert_eq!(OverlayInfoOps::replay_for_display(&files, Some("/other/a.SC2Replay"), None), Some(0));
    assert_eq!(OverlayInfoOps::replay_for_display(&files, Some("   "), Some("/r/b.SC2Replay")), Some(1));
    assert_eq!(OverlayInfoOps::replay_for_display(&files, None, Some("/x/none.SC2Replay")), None);
    assert_eq!(OverlayInfoOps::replay_for_display(&files, None, None), None);
    let names = vec![Some("a".to_string()), None];
    assert_eq!(
        OverlayInfoOps::replay_for_display_by_names(&files, &names, Some("q"), Some("a".to_string()), None, None),
        Some(0)
    );
}

#[test]
fn sc2_window_identity() {
    assert!(ActiveWindowDetector::is_sc2_window_identity(" SC2_x64.exe ", ""));
    assert!(ActiveWindowDetector::is_sc2_window_identity("other", "StarCraft II"));
    assert!(!ActiveWindowDetector::is_sc2_window_identity("notepad.exe", "StarCraft II notes"));
}

#[test]
fn active_window_rect_is_never_empty() {
    assert!(ActiveWindowRect::new(1, 2, 0, 5).is_none());
    let r = ActiveWindowRect::new(1, 2, 3, 4).unwrap();
    assert_eq!((r.x(), r.y(), r.width(), r.height()), (1, 2, 3, 4));
}

#[test]
fn focused_window_choice() {
    let windows = vec![
        PlatformWindow { app_name: Some("a".to_string()), title: None, is_focused: Some(true), is_minimized: Some(true), rect: None },
        PlatformWindow { app_name: None, title: Some("t".to_string()), is_focused: None, is_minimized: Some(false), rect: None },
        PlatformWindow { app_name: Some("SC2.exe".to_string()), title: None, is_focused: Some(true), is_minimized: Some(false), rect: ActiveWindowRect::new(0, 0, 10, 10) },
    ];
    let info = PlatformActiveWindowDetector::focused_window_info(windows).unwrap();
    assert_eq!(info.application_name(), "SC2.exe");
    assert_eq!(info.title(), "");
    assert!(info.rect().is_some());
    assert!(info.is_sc2_window());
    assert_eq!(ActiveWindowDetector::focused_window_is_sc2(Ok(Some(info))), Ok(true));
    assert_eq!(ActiveWindowDetector::focused_window_is_sc2(Ok(None)), Ok(false));
    assert_eq!(ActiveWindowDetector::focused_window_is_sc2(Err("e".to_string())), Err("e".to_string()));
    let other = ActiveWindowInfo::new("x".to_string(), "y".to_string());
    assert!(ActiveWindowDetector::focused_sc2_window_info(Ok(Some(other))).unwrap().is_none());
}

#[test]
fn focus_listener_reports_changes_only() {
    assert_eq!(PlatformActiveWindowDetector::focus_listener_step(None, false), (Some(false), true));
    assert_eq!(PlatformActiveWindowDetector::focus_listener_step(Some(false), false), (Some(false), false));
    assert_eq!(PlatformActiveWindowDetector::focus_listener_step(Some(false), true), (Some(true), true));
}

#[test]
fn sc2_overlay_sync_and_positions() {
    assert!(!OverlayInfoOps::sc2_overlay_should_sync(true));
    assert!(OverlayInfoOps::sc2_overlay_should_sync(false));
}

#[test]
fn normalized_hotkeys_normalize_to_themselves() {
    for raw in ["Ctrl + Shift + *", "cmd+plus", " Alt+{ ", "CommandOrControl+Shift+~", "F5"] {
        let once = OverlayInfoOps::normalize_hotkey(raw).unwrap();
        assert_eq!(OverlayInfoOps::normalize_hotkey(&once), Some(once.clone()));
    }
    assert_eq!(OverlayInfoOps::normalize_hotkey("+"), None);
    assert_eq!(OverlayInfoOps::normalize_hotkey(" + + "), None);
    assert_eq!(OverlayInfoOps::normalize_hotkey(""), None);
    assert_eq!(OverlayInfoOps::normalize_hotkey("ctrl+shift"), None);
    assert_eq!(OverlayInfoOps::normalize_hotkey("Cmd + Alt"), None);
    assert_eq!(OverlayInfoOps::normalize_hotkey("ctrl+shift+a"), Some("control+shift+a".to_string()));
}

#[test]
fn screenshot_checks() {
    let png = [137u8, 80, 78, 71, 13, 10, 26, 10, 0, 1];
    assert!(OverlayInfoOps::is_png_signature(&png));
    assert!(!OverlayInfoOps::is_png_signature(&png[..7]));
    assert!(!OverlayInfoOps::is_png_signature(&[0u8; 10]));
    assert_eq!(OverlayInfoOps::check_overlay_screenshot(Some("PNG"), &png), Ok(()));
    assert_eq!(
        OverlayInfoOps::check_overlay_screenshot(Some("jpg"), &png),
        Err("Overlay screenshot path must end with .png".to_string())
    );
    assert_eq!(
        OverlayInfoOps::check_overlay_screenshot(None, &png),
        Err("Overlay screenshot path must end with .png".to_string())
    );
    assert_eq!(
        OverlayInfoOps::check_overlay_screenshot(Some("png"), b"GIF89a"),
        Err("Overlay screenshot data is not a PNG image".to_string())
    );
}
