use tauri_overlay::overlay_actions::{OverlayActionOps, OverlayActionPlan, OverlayEffect, OverlayEvent};

fn effects_and_message(p: Option<OverlayActionPlan>) -> (Vec<OverlayEffect>, String) {
    match p {
        Some(OverlayActionPlan::Respond { effects, message }) => (effects, message),
        _ => panic!("expected an immediate answer"),
    }
}

#[test]
fn overlay_show_hide_depends_on_visibility() {
    let (e, m) = effects_and_message(OverlayActionOps::overlay_action_plan("overlay_show_hide", true, false, false, "", None));
    assert_eq!(e, vec![OverlayEffect::SetReplayDataActive(false), OverlayEffect::Emit(OverlayEvent::ShowHide)]);
    assert_eq!(m, "Overlay visibility toggled");
    let (e, _) = effects_and_message(OverlayActionOps::overlay_action_plan("overlay_show_hide", false, false, false, "", None));
    assert_eq!(e, vec![OverlayEffect::ShowOverlayWindow, OverlayEffect::Emit(OverlayEvent::ShowStats)]);
}

#[test]
fn overlay_replay_data_state_follows_body() {
    let (e, m) = effects_and_message(OverlayActionOps::overlay_action_plan("overlay_replay_data_state", false, false, false, "", None));
    assert_eq!(e, vec![OverlayEffect::SetReplayDataActive(false), OverlayEffect::ClearCurrentReplay]);
    assert_eq!(m, "Overlay replay data cleared");
    let (_, m) = effects_and_message(OverlayActionOps::overlay_action_plan("overlay_replay_data_state", false, false, true, "", None));
    assert_eq!(m, "Overlay replay data marked active");
}

#[test]
fn overlay_actions_that_wait_for_the_app() {
    assert!(OverlayActionOps::overlay_action_plan("nope", false, false, false, "", None).is_none());
    assert!(matches!(
        OverlayActionOps::overlay_action_plan("overlay_older", false, false, false, "", None),
        Some(OverlayActionPlan::MoveReplay { delta: -1 })
    ));
    assert!(matches!(
        OverlayActionOps::overlay_action_plan("performance_show_hide", false, true, false, "", None),
        Some(OverlayActionPlan::SetPerformanceVisible { visible: false })
    ));
    match OverlayActionOps::overlay_action_plan("hotkey_reassign_end", false, false, false, "hotkey_show", None) {
        Some(OverlayActionPlan::ReassignHotkey { begin, path }) => {
            assert!(!begin);
            assert_eq!(path, "hotkey_show");
        },
        _ => panic!("expected a reassignment"),
    }
    let (e, m) = effects_and_message(OverlayActionOps::overlay_action_plan("create_desktop_shortcut", false, false, false, "", None));
    assert!(e.is_empty());
    assert_eq!(m, "Create desktop shortcut is not available in this build");
}

#[test]
fn overlay_action_answers() {
    let r = OverlayActionOps::hotkey_reassign_response(true, "hotkey_show", Ok(()));
    assert_eq!(r.message, "Removed hotkey trigger for hotkey_show");
    assert_eq!(r.result.path, Some("hotkey_show".to_string()));
    assert!(r.result.ok);
    let r = OverlayActionOps::hotkey_reassign_response(false, "x", Err("bad".to_string()));
    assert!(!r.result.ok);
    assert_eq!(r.message, "bad");
    let r = OverlayActionOps::performance_visibility_response(true, Ok(()));
    assert_eq!(r.message, "Performance overlay shown");
    let r = OverlayActionOps::reposition_response(false);
    assert_eq!(r.message, "Performance overlay reposition mode disabled");
    let r = OverlayActionOps::screenshot_response(Ok("/s/a.png".to_string()));
    assert_eq!(r.message, "Overlay screenshot requested for /s/a.png");
    assert_eq!(r.status, "ok");
}
