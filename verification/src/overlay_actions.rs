use vstd::prelude::*;

use crate::command_payloads::{response_is, OverlayActionResponse};
use crate::text::str_eq;

verus! {

/// Events the overlay window listens to.
#[derive(Clone, Copy, Debug, PartialEq, Eq, Structural)]
pub enum OverlayEvent {
    ShowHide,
    ShowStats,
    HideStats,
}

/// One step that the app carries out for an overlay action.
#[derive(Clone, Copy, Debug, PartialEq, Eq, Structural)]
pub enum OverlayEffect {
    SetReplayDataActive(bool),
    ClearCurrentReplay,
    ShowOverlayWindow,
    HideOverlayWindow,
    Emit(OverlayEvent),
}

/// What an overlay action asks the app to do.
pub enum OverlayActionPlan {
    /// Carry out the steps in order, then answer with success and the message.
    Respond { effects: Vec<OverlayEffect>, message: String },
    /// Move the shown replay by `delta` (newer: 1, older: -1).
    MoveReplay { delta: i32 },
    /// Show or hide the player statistics on the overlay.
    TogglePlayerStats,
    /// Show or hide the performance window; the answer is [`OverlayActionOps::performance_visibility_response`].
    SetPerformanceVisible { visible: bool },
    /// Switch the performance window's reposition mode; the answer is
    /// [`OverlayActionOps::reposition_response`].
    TogglePerformanceReposition,
    /// Take down (`begin`) or put back the hotkey of a setting; the answer is
    /// [`OverlayActionOps::hotkey_reassign_response`].
    ReassignHotkey { begin: bool, path: String },
    /// Show a replay: the one named, or the current one.
    ParseReplay { file: Option<String> },
    /// Ask the overlay for a screenshot; the answer is [`OverlayActionOps::screenshot_response`].
    RequestScreenshot,
    /// Generate a random commander.
    GenerateRandomizer,
}

/// An overlay action plan as plain values.
pub enum OverlayActionPlanView {
    Respond { effects: Seq<OverlayEffect>, message: Seq<char> },
    MoveReplay { delta: int },
    TogglePlayerStats,
    SetPerformanceVisible { visible: bool },
    TogglePerformanceReposition,
    ReassignHotkey { begin: bool, path: Seq<char> },
    ParseReplay { file: Option<Seq<char>> },
    RequestScreenshot,
    GenerateRandomizer,
}

impl OverlayActionPlan {
    pub open spec fn view_plan(self) -> OverlayActionPlanView {
        match self {
            OverlayActionPlan::Respond { effects, message } => OverlayActionPlanView::Respond {
                effects: effects@,
                message: message@,
            },
            OverlayActionPlan::MoveReplay { delta } => OverlayActionPlanView::MoveReplay { delta: delta as int },
            OverlayActionPlan::TogglePlayerStats => OverlayActionPlanView::TogglePlayerStats,
            OverlayActionPlan::SetPerformanceVisible { visible } => OverlayActionPlanView::SetPerformanceVisible {
                visible,
            },
            OverlayActionPlan::TogglePerformanceReposition => OverlayActionPlanView::TogglePerformanceReposition,
            OverlayActionPlan::ReassignHotkey { begin, path } => OverlayActionPlanView::ReassignHotkey {
                begin,
                path: path@,
            },
            OverlayActionPlan::ParseReplay { file } => OverlayActionPlanView::ParseReplay {
                file: match file {
                    Some(f) => Some(f@),
                    None => None,
                },
            },
            OverlayActionPlan::RequestScreenshot => OverlayActionPlanView::RequestScreenshot,
            OverlayActionPlan::GenerateRandomizer => OverlayActionPlanView::GenerateRandomizer,
        }
    }
}

/// The plan for an overlay action, given whether the overlay and the performance windows are
/// visible and what the request body holds (`active`, `path` and `file`, as read with their
/// defaults); nothing for an unknown action.
pub open spec fn overlay_action_plan_spec(
    action: Seq<char>,
    overlay_visible: bool,
    performance_visible: bool,
    active: bool,
    path: Seq<char>,
    file: Option<Seq<char>>,
) -> Option<OverlayActionPlanView> {
    if action == "overlay_show_hide"@ {
        Some(OverlayActionPlanView::Respond {
            effects: if overlay_visible {
                seq![OverlayEffect::SetReplayDataActive(false), OverlayEffect::Emit(OverlayEvent::ShowHide)]
            } else {
                seq![OverlayEffect::ShowOverlayWindow, OverlayEffect::Emit(OverlayEvent::ShowStats)]
            },
            message: "Overlay visibility toggled"@,
        })
    } else if action == "overlay_show"@ {
        Some(OverlayActionPlanView::Respond {
            effects: seq![OverlayEffect::ShowOverlayWindow, OverlayEffect::Emit(OverlayEvent::ShowStats)],
            message: "Overlay shown"@,
        })
    } else if action == "overlay_hide"@ {
        Some(OverlayActionPlanView::Respond {
            effects: seq![
                OverlayEffect::SetReplayDataActive(false),
                OverlayEffect::HideOverlayWindow,
                OverlayEffect::Emit(OverlayEvent::HideStats),
            ],
            message: "Overlay hidden"@,
        })
    } else if action == "overlay_replay_data_state"@ {
        Some(OverlayActionPlanView::Respond {
            effects: if active {
                seq![OverlayEffect::SetReplayDataActive(true)]
            } else {
                seq![OverlayEffect::SetReplayDataActive(false), OverlayEffect::ClearCurrentReplay]
            },
            message: if active {
                "Overlay replay data marked active"@
            } else {
                "Overlay replay data cleared"@
            },
        })
    } else if action == "overlay_newer"@ {
        Some(OverlayActionPlanView::MoveReplay { delta: 1 })
    } else if action == "overlay_older"@ {
        Some(OverlayActionPlanView::MoveReplay { delta: -1 })
    } else if action == "overlay_player_stats"@ {
        Some(OverlayActionPlanView::TogglePlayerStats)
    } else if action == "performance_show_hide"@ {
        Some(OverlayActionPlanView::SetPerformanceVisible { visible: !performance_visible })
    } else if action == "performance_toggle_reposition"@ {
        Some(OverlayActionPlanView::TogglePerformanceReposition)
    } else if action == "hotkey_reassign_begin"@ {
        Some(OverlayActionPlanView::ReassignHotkey { begin: true, path })
    } else if action == "hotkey_reassign_end"@ {
        Some(OverlayActionPlanView::ReassignHotkey { begin: false, path })
    } else if action == "parse_replay"@ {
        Some(OverlayActionPlanView::ParseReplay { file })
    } else if action == "overlay_screenshot"@ {
        Some(OverlayActionPlanView::RequestScreenshot)
    } else if action == "create_desktop_shortcut"@ {
        Some(OverlayActionPlanView::Respond {
            effects: Seq::empty(),
            message: "Create desktop shortcut is not available in this build"@,
        })
    } else if action == "randomizer_generate"@ {
        Some(OverlayActionPlanView::GenerateRandomizer)
    } else {
        None
    }
}

/// Moving through replays goes both ways: "overlay_newer" moves one replay toward the newer
/// ones (a step of +1) and "overlay_older" one toward the older ones (-1), whatever else the
/// request holds.
pub proof fn law_newer_and_older_move_opposite_ways(
    overlay_visible: bool,
    performance_visible: bool,
    active: bool,
    path: Seq<char>,
    file: Option<Seq<char>>,
)
    ensures
        ({
            let newer = overlay_action_plan_spec("overlay_newer"@, overlay_visible, performance_visible, active, path, file);
            let older = overlay_action_plan_spec("overlay_older"@, overlay_visible, performance_visible, active, path, file);
            &&& newer matches Some(OverlayActionPlanView::MoveReplay { delta: up })
            &&& older matches Some(OverlayActionPlanView::MoveReplay { delta: down })
            &&& newer->0->delta > 0
            &&& older->0->delta == 0 - newer->0->delta
            &&& newer->0->delta == 1
        }),
{
    reveal_strlit("overlay_newer");
    reveal_strlit("overlay_older");
    reveal_strlit("overlay_show_hide");
    reveal_strlit("overlay_show");
    reveal_strlit("overlay_hide");
    reveal_strlit("overlay_replay_data_state");
    assert("overlay_newer"@.len() == 13 && "overlay_older"@.len() == 13);
    assert("overlay_newer"@ != "overlay_show_hide"@);
    assert("overlay_newer"@ != "overlay_show"@);
    assert("overlay_newer"@ != "overlay_hide"@);
    assert("overlay_newer"@ != "overlay_replay_data_state"@);
    assert("overlay_older"@[8] != "overlay_newer"@[8]);
    assert("overlay_older"@ != "overlay_newer"@);
}

/// Hiding the overlay (hide, or show-hide while it is visible) first marks the replay data
/// inactive and never shows the window; showing it (show, or show-hide while it is hidden)
/// shows the window and asks for the statistics; the performance action asks for the
/// opposite of the performance window's visibility; hotkey and replay actions carry the
/// setting and the file that were asked for.
pub proof fn law_overlay_actions_do_what_they_say(
    overlay_visible: bool,
    performance_visible: bool,
    active: bool,
    path: Seq<char>,
    file: Option<Seq<char>>,
)
    ensures
        ({
            let plan = |a: Seq<char>, v: bool| overlay_action_plan_spec(a, v, performance_visible, active, path, file);
            let hides = |p: Option<OverlayActionPlanView>|
                p matches Some(OverlayActionPlanView::Respond { effects, .. }) && effects.len() > 0
                    && effects[0] == OverlayEffect::SetReplayDataActive(false) && !effects.contains(
                    OverlayEffect::ShowOverlayWindow,
                );
            let shows = |p: Option<OverlayActionPlanView>|
                p matches Some(OverlayActionPlanView::Respond { effects, .. }) && effects.contains(
                    OverlayEffect::ShowOverlayWindow,
                ) && effects.contains(OverlayEffect::Emit(OverlayEvent::ShowStats)) && !effects.contains(
                    OverlayEffect::SetReplayDataActive(false),
                );
            &&& hides(plan("overlay_hide"@, overlay_visible))
            &&& hides(plan("overlay_show_hide"@, true))
            &&& shows(plan("overlay_show"@, overlay_visible))
            &&& shows(plan("overlay_show_hide"@, false))
            &&& plan("performance_show_hide"@, overlay_visible) matches Some(
                OverlayActionPlanView::SetPerformanceVisible { visible },
            ) && visible != performance_visible
            &&& plan("hotkey_reassign_begin"@, overlay_visible) matches Some(
                OverlayActionPlanView::ReassignHotkey { begin, path: p },
            ) && begin && p == path
            &&& plan("hotkey_reassign_end"@, overlay_visible) matches Some(
                OverlayActionPlanView::ReassignHotkey { begin, path: p },
            ) && !begin && p == path
            &&& plan("parse_replay"@, overlay_visible) matches Some(OverlayActionPlanView::ParseReplay { file: f })
                && f == file
        }),
{
    reveal_strlit("overlay_show_hide");
    reveal_strlit("overlay_show");
    reveal_strlit("overlay_hide");
    reveal_strlit("overlay_replay_data_state");
    reveal_strlit("overlay_newer");
    reveal_strlit("overlay_older");
    reveal_strlit("overlay_player_stats");
    reveal_strlit("performance_show_hide");
    reveal_strlit("performance_toggle_reposition");
    reveal_strlit("hotkey_reassign_begin");
    reveal_strlit("hotkey_reassign_end");
    reveal_strlit("parse_replay");
    reveal_strlit("overlay_screenshot");
    reveal_strlit("create_desktop_shortcut");
    reveal_strlit("randomizer_generate");
    assert("overlay_show"@[8] != "overlay_hide"@[8]);
    assert("overlay_show"@[0] != "parse_replay"@[0]);
    assert("overlay_hide"@[0] != "parse_replay"@[0]);
    assert("overlay_newer"@[8] != "overlay_older"@[8]);
    assert("performance_show_hide"@[0] != "hotkey_reassign_begin"@[0]);
    assert("hotkey_reassign_end"@[0] != "randomizer_generate"@[0]);
    let e1 = seq![
        OverlayEffect::SetReplayDataActive(false),
        OverlayEffect::HideOverlayWindow,
        OverlayEffect::Emit(OverlayEvent::HideStats),
    ];
    assert(e1[0] == OverlayEffect::SetReplayDataActive(false) && e1[1] != OverlayEffect::ShowOverlayWindow);
    let e2 = seq![OverlayEffect::SetReplayDataActive(false), OverlayEffect::Emit(OverlayEvent::ShowHide)];
    assert(e2[1] != OverlayEffect::ShowOverlayWindow);
    let e3 = seq![OverlayEffect::ShowOverlayWindow, OverlayEffect::Emit(OverlayEvent::ShowStats)];
    assert(e3[0] == OverlayEffect::ShowOverlayWindow && e3[1] == OverlayEffect::Emit(OverlayEvent::ShowStats));
    assert(!e3.contains(OverlayEffect::SetReplayDataActive(false))) by {
        assert forall|k: int| 0 <= k < e3.len() implies e3[k] != OverlayEffect::SetReplayDataActive(false) by {
            if k == 0 {
            } else {
                assert(k == 1);
            }
        }
    }
    assert(!e1.contains(OverlayEffect::ShowOverlayWindow)) by {
        assert forall|k: int| 0 <= k < e1.len() implies e1[k] != OverlayEffect::ShowOverlayWindow by {
            assert(k == 0 || k == 1 || k == 2);
        }
    }
    assert(!e2.contains(OverlayEffect::ShowOverlayWindow)) by {
        assert forall|k: int| 0 <= k < e2.len() implies e2[k] != OverlayEffect::ShowOverlayWindow by {
            assert(k == 0 || k == 1);
        }
    }
    assert(e3.contains(OverlayEffect::ShowOverlayWindow) && e3.contains(OverlayEffect::Emit(OverlayEvent::ShowStats)))
        by {
        assert(e3[0] == OverlayEffect::ShowOverlayWindow);
        assert(e3[1] == OverlayEffect::Emit(OverlayEvent::ShowStats));
    }
    assert("overlay_show"@.len() == 12 && "overlay_show_hide"@.len() == 17);
    assert("overlay_show"@ != "overlay_show_hide"@);
    assert("hotkey_reassign_end"@.len() == 19 && "hotkey_reassign_begin"@.len() == 21);
    assert("parse_replay"@.len() == 12 && "performance_toggle_reposition"@.len() == 29);
    assert("hotkey_reassign_end"@ != "hotkey_reassign_begin"@);
    assert("parse_replay"@ != "hotkey_reassign_end"@);
    assert("parse_replay"@ != "hotkey_reassign_begin"@);
    assert("parse_replay"@ != "performance_toggle_reposition"@);
}

fn respond(effects: Vec<OverlayEffect>, message: &str) -> (r: Option<OverlayActionPlan>)
    ensures
        r matches Some(p) && p.view_plan() == (OverlayActionPlanView::Respond { effects: effects@, message: message@ }),
{
    Some(OverlayActionPlan::Respond { effects, message: String::from_str(message) })
}

pub struct OverlayActionOps;

impl OverlayActionOps {
    /// The plan for an overlay action (see [`overlay_action_plan_spec`]).
    pub fn overlay_action_plan(
        action: &str,
        overlay_visible: bool,
        performance_visible: bool,
        active: bool,
        path: &str,
        file: Option<&str>,
    ) -> (r: Option<OverlayActionPlan>)
        ensures
            match r {
                Some(p) => overlay_action_plan_spec(
                    action@,
                    overlay_visible,
                    performance_visible,
                    active,
                    path@,
                    match file {
                        Some(f) => Some(f@),
                        None => None,
                    },
                ) == Some(p.view_plan()),
                None => overlay_action_plan_spec(
                    action@,
                    overlay_visible,
                    performance_visible,
                    active,
                    path@,
                    match file {
                        Some(f) => Some(f@),
                        None => None,
                    },
                ) is None,
            },
    {
        if str_eq(action, "overlay_show_hide") {
            if overlay_visible {
                {
                let v = vec![OverlayEffect::SetReplayDataActive(false), OverlayEffect::Emit(OverlayEvent::ShowHide)];
                assert(v@ =~= seq![OverlayEffect::SetReplayDataActive(false), OverlayEffect::Emit(OverlayEvent::ShowHide)]);
                respond(v, "Overlay visibility toggled")
            }
            } else {
                {
                let v = vec![OverlayEffect::ShowOverlayWindow, OverlayEffect::Emit(OverlayEvent::ShowStats)];
                assert(v@ =~= seq![OverlayEffect::ShowOverlayWindow, OverlayEffect::Emit(OverlayEvent::ShowStats)]);
                respond(v, "Overlay visibility toggled")
            }
            }
        } else if str_eq(action, "overlay_show") {
            {
                let v = vec![OverlayEffect::ShowOverlayWindow, OverlayEffect::Emit(OverlayEvent::ShowStats)];
                assert(v@ =~= seq![OverlayEffect::ShowOverlayWindow, OverlayEffect::Emit(OverlayEvent::ShowStats)]);
                respond(v, "Overlay shown")
            }
        } else if str_eq(action, "overlay_hide") {
            {
                let v = vec![
                    OverlayEffect::SetReplayDataActive(false),
                    OverlayEffect::HideOverlayWindow,
                    OverlayEffect::Emit(OverlayEvent::HideStats),
                ];
                assert(v@ =~= seq![
                    OverlayEffect::SetReplayDataActive(false),
                    OverlayEffect::HideOverlayWindow,
                    OverlayEffect::Emit(OverlayEvent::HideStats),
                ]);
                respond(v, "Overlay hidden")
            }
        } else if str_eq(action, "overlay_replay_data_state") {
            if active {
                {
                let v = vec![OverlayEffect::SetReplayDataActive(true)];
                assert(v@ =~= seq![OverlayEffect::SetReplayDataActive(true)]);
                respond(v, "Overlay replay data marked active")
            }
            } else {
                {
                let v = vec![OverlayEffect::SetReplayDataActive(false), OverlayEffect::ClearCurrentReplay];
                assert(v@ =~= seq![OverlayEffect::SetReplayDataActive(false), OverlayEffect::ClearCurrentReplay]);
                respond(v, "Overlay replay data cleared")
            }
            }
        } else if str_eq(action, "overlay_newer") {
            Some(OverlayActionPlan::MoveReplay { delta: 1 })
        } else if str_eq(action, "overlay_older") {
            Some(OverlayActionPlan::MoveReplay { delta: -1 })
        } else if str_eq(action, "overlay_player_stats") {
            Some(OverlayActionPlan::TogglePlayerStats)
        } else if str_eq(action, "performance_show_hide") {
            Some(OverlayActionPlan::SetPerformanceVisible { visible: !performance_visible })
        } else if str_eq(action, "performance_toggle_reposition") {
            Some(OverlayActionPlan::TogglePerformanceReposition)
        } else if str_eq(action, "hotkey_reassign_begin") {
            Some(OverlayActionPlan::ReassignHotkey { begin: true, path: String::from_str(path) })
        } else if str_eq(action, "hotkey_reassign_end") {
            Some(OverlayActionPlan::ReassignHotkey { begin: false, path: String::from_str(path) })
        } else if str_eq(action, "parse_replay") {
            Some(OverlayActionPlan::ParseReplay {
                file: match file {
                    Some(f) => Some(String::from_str(f)),
                    None => None,
                },
            })
        } else if str_eq(action, "overlay_screenshot") {
            Some(OverlayActionPlan::RequestScreenshot)
        } else if str_eq(action, "create_desktop_shortcut") {
            {
                let v: Vec<OverlayEffect> = Vec::new();
                assert(v@ =~= Seq::<OverlayEffect>::empty());
                respond(v, "Create desktop shortcut is not available in this build")
            }
        } else if str_eq(action, "randomizer_generate") {
            Some(OverlayActionPlan::GenerateRandomizer)
        } else {
            None
        }
    }

    /// The answer after showing (`visible`) or hiding the performance window: success with
    /// what was done, or failure with the error.
    pub fn performance_visibility_response(visible: bool, outcome: Result<(), String>) -> (r: OverlayActionResponse)
        ensures
            match outcome {
                Ok(()) => response_is(
                    r,
                    true,
                    None,
                    if visible {
                        "Performance overlay shown"@
                    } else {
                        "Performance overlay hidden"@
                    },
                ),
                Err(e) => response_is(r, false, None, e@),
            },
    {
        match outcome {
            Ok(()) => OverlayActionResponse::success(String::from_str(
                if visible {
                    "Performance overlay shown"
                } else {
                    "Performance overlay hidden"
                },
            )),
            Err(e) => OverlayActionResponse::failure(e),
        }
    }

    /// The answer after switching the reposition mode, which is now `enabled` or not.
    pub fn reposition_response(enabled: bool) -> (r: OverlayActionResponse)
        ensures
            response_is(
                r,
                true,
                None,
                if enabled {
                    "Performance overlay reposition mode enabled"@
                } else {
                    "Performance overlay reposition mode disabled"@
                },
            ),
    {
        OverlayActionResponse::success(String::from_str(
            if enabled {
                "Performance overlay reposition mode enabled"
            } else {
                "Performance overlay reposition mode disabled"
            },
        ))
    }

    /// The answer after taking down (`begin`) or putting back the hotkey of `path`: success
    /// naming the setting, or failure with the error; both carry the setting.
    pub fn hotkey_reassign_response(begin: bool, path: &str, outcome: Result<(), String>) -> (r: OverlayActionResponse)
        ensures
            match outcome {
                Ok(()) => response_is(
                    r,
                    true,
                    Some(path@),
                    (if begin {
                        "Removed hotkey trigger for "@
                    } else {
                        "Recreated hotkey trigger for "@
                    }) + path@,
                ),
                Err(e) => response_is(r, false, Some(path@), e@),
            },
    {
        match outcome {
            Ok(()) => {
                let mut m = String::from_str(
                    if begin {
                        "Removed hotkey trigger for "
                    } else {
                        "Recreated hotkey trigger for "
                    },
                );
                m.append(path);
                OverlayActionResponse::success_with_path(m, String::from_str(path))
            },
            Err(e) => OverlayActionResponse::failure_with_path(e, String::from_str(path)),
        }
    }

    /// The answer after asking for a screenshot: success with the file it will be saved to,
    /// or failure with the error.
    pub fn screenshot_response(outcome: Result<String, String>) -> (r: OverlayActionResponse)
        ensures
            match outcome {
                Ok(p) => response_is(r, true, Some(p@), "Overlay screenshot requested for "@ + p@),
                Err(e) => response_is(r, false, None, e@),
            },
    {
        match outcome {
            Ok(p) => {
                let mut m = String::from_str("Overlay screenshot requested for ");
                m.append(p.as_str());
                OverlayActionResponse::success_with_path(m, p)
            },
            Err(e) => OverlayActionResponse::failure(e),
        }
    }
}

} // verus!
