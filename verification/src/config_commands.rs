use vstd::prelude::*;

use crate::app_settings::{setting_differs, AppSettings};
use crate::command_payloads::{response_is, OverlayActionResponse};
use crate::query_types::{
    at_least_one, player_sort_key_for, PlayersPageQueryView, ReplayCachePage, ReplayCachePlayerNote,
    ReplayCachePlayerSortKey, ReplayCachePlayersPageQuery, ReplayCacheSortDirection,
};
use crate::tauri_overlay_ops::{
    TauriOverlayOps, OVERLAY_HOTKEY_SETTING_KEYS, OVERLAY_PLACEMENT_SETTING_KEYS, OVERLAY_RUNTIME_SETTING_KEYS,
    PERFORMANCE_RUNTIME_SETTING_KEYS,
};
use crate::text::{decimal_seq, decimal_string, lower_seq, str_eq, trim, trim_seq};

verus! {

/// Whether any of the settings named in `keys` differs between `a` and `b`.
pub open spec fn any_differs(
    a: crate::app_settings::AppSettingsView,
    b: crate::app_settings::AppSettingsView,
    keys: Seq<&'static str>,
) -> bool {
    exists|i: int| 0 <= i < keys.len() && setting_differs(a, b, (#[trigger] keys[i])@)
}

/// What a change of settings asks the running app to redo.
pub struct RuntimeSettingsChanges {
    /// Resend the overlay's colours, timing and language.
    pub overlay_runtime: bool,
    /// Register the overlay hotkeys again.
    pub overlay_hotkeys: bool,
    /// Place the overlay window again.
    pub overlay_placement: bool,
    /// Watch another replay folder.
    pub replay_watch_root: bool,
    /// Apply the performance overlay's settings again.
    pub performance_runtime: bool,
    /// Tell the overlay the new chart switch, when it changed.
    pub show_charts: Option<bool>,
    /// Whether detailed analysis runs at start-up, from now on.
    pub detailed_analysis_atstart: bool,
}

impl TauriOverlayOps {
    /// What changed between the settings in effect and the new ones, as the running app
    /// needs to know it.
    pub fn runtime_settings_changes(previous: &AppSettings, next: &AppSettings) -> (r: RuntimeSettingsChanges)
        requires
            previous.wf(),
            next.wf(),
        ensures
            r.overlay_runtime == any_differs(previous@, next@, OVERLAY_RUNTIME_SETTING_KEYS@),
            r.overlay_hotkeys == any_differs(previous@, next@, OVERLAY_HOTKEY_SETTING_KEYS@),
            r.overlay_placement == any_differs(previous@, next@, OVERLAY_PLACEMENT_SETTING_KEYS@),
            r.replay_watch_root == setting_differs(previous@, next@, "account_folder"@),
            r.performance_runtime == any_differs(previous@, next@, PERFORMANCE_RUNTIME_SETTING_KEYS@),
            r.show_charts == (if previous@.show_charts != next@.show_charts {
                Some(next@.show_charts)
            } else {
                None
            }),
            r.detailed_analysis_atstart == next@.detailed_analysis_atstart,
    {
        let runtime_keys = OVERLAY_RUNTIME_SETTING_KEYS;
        let hotkey_keys = OVERLAY_HOTKEY_SETTING_KEYS;
        let placement_keys = OVERLAY_PLACEMENT_SETTING_KEYS;
        let performance_keys = PERFORMANCE_RUNTIME_SETTING_KEYS;
        let previous_show_charts = previous.show_charts();
        let show_charts = next.show_charts();
        RuntimeSettingsChanges {
            overlay_runtime: AppSettings::any_setting_changed(previous, next, runtime_keys.as_slice()),
            overlay_hotkeys: AppSettings::any_setting_changed(previous, next, hotkey_keys.as_slice()),
            overlay_placement: AppSettings::any_setting_changed(previous, next, placement_keys.as_slice()),
            replay_watch_root: AppSettings::setting_value_changed(previous, next, "account_folder"),
            performance_runtime: AppSettings::any_setting_changed(previous, next, performance_keys.as_slice()),
            show_charts: if show_charts != previous_show_charts {
                Some(show_charts)
            } else {
                None
            },
            detailed_analysis_atstart: next.detailed_analysis_atstart(),
        }
    }
}

/// What the players list was asked for; every part may be missing.
#[derive(Clone, Debug, Default)]
pub struct ConfigPlayersPageRequest {
    pub limit: Option<usize>,
    pub page: Option<usize>,
    pub rows_per_page: Option<usize>,
    pub search: Option<String>,
    pub sort_key: Option<String>,
    pub sort_direction: Option<String>,
}

/// The page asked for: at least the first.
pub open spec fn requested_page(r: ConfigPlayersPageRequest) -> usize {
    match r.page {
        Some(p) => at_least_one(p),
        None => 1,
    }
}

/// The rows per page asked for (or the limit): 300 when neither is given or positive.
pub open spec fn requested_rows(r: ConfigPlayersPageRequest) -> usize {
    match r.rows_per_page {
        Some(n) => if n > 0 {
            n
        } else {
            300
        },
        None => match r.limit {
            Some(n) => if n > 0 {
                n
            } else {
                300
            },
            None => 300,
        },
    }
}

pub open spec fn opt_view(o: Option<String>) -> Option<Seq<char>> {
    match o {
        Some(s) => Some(s@),
        None => None,
    }
}

/// The request line logged for a players page.
pub open spec fn players_log_path(page: usize, rows: usize, search: Seq<char>) -> Seq<char> {
    "/config/players?page="@ + decimal_seq(page as nat) + "&rows_per_page="@ + decimal_seq(rows as nat)
        + "&search="@ + search
}

/// Which configuration action was asked for, with what it needs.
pub enum ConfigActionRequest {
    SetPlayerNote { player: String, note: String },
    SetLatestTodayWinBonusTime { time: String },
    Overlay { action: String },
}

/// The normalized form of a time given in RFC 3339: the same instant in UTC, to the second,
/// with a `Z`; nothing when the text is not such a time. As `chrono` computes it.
pub uninterp spec fn utc_rfc3339_seconds(text: Seq<char>) -> Option<Seq<char>>;

/// Reads `text` with `chrono::DateTime::parse_from_rfc3339`, moves it to UTC with
/// `with_timezone(&Utc)` and writes it with `to_rfc3339_opts(SecondsFormat::Secs, true)`. The
/// result is a function of the text alone, named [`utc_rfc3339_seconds`].
#[verifier::external_body]
fn parse_rfc3339_to_utc_seconds(text: &str) -> (r: Option<String>)
    ensures
        opt_view(r) == utc_rfc3339_seconds(text@),
{
    match chrono::DateTime::parse_from_rfc3339(text) {
        Ok(t) => Some(t.with_timezone(&chrono::Utc).to_rfc3339_opts(chrono::SecondsFormat::Secs, true)),
        Err(_) => None,
    }
}

fn append(out: &mut String, s: &str)
    ensures
        final(out)@ == old(out)@ + s@,
{
    out.append(s);
}

/// Configuration requests of the front end.
pub struct ConfigCommands;

impl ConfigCommands {
    /// The players page query for `request` (defaults where parts are missing), with the given
    /// notes, and the request line to log.
    pub fn players_page_query(request: Option<ConfigPlayersPageRequest>, player_notes: Vec<ReplayCachePlayerNote>) -> (r: (
        ReplayCachePlayersPageQuery,
        String,
    ))
        ensures
            ({
                let req = match request {
                    Some(q) => q,
                    None => ConfigPlayersPageRequest {
                        limit: None,
                        page: None,
                        rows_per_page: None,
                        search: None,
                        sort_key: None,
                        sort_direction: None,
                    },
                };
                let search = match opt_view(req.search) {
                    Some(s) => s,
                    None => Seq::empty(),
                };
                &&& r.0@.page.rows_view() == requested_rows(req)
                &&& r.0@.page.offset_view() == (requested_page(req) - 1) * requested_rows(req)
                    || (r.0@.page.offset_view() == usize::MAX && (requested_page(req) - 1) * requested_rows(
                    req,
                ) > usize::MAX)
                &&& r.0@.search == search
                &&& r.0@.sort_key == match opt_view(req.sort_key) {
                    Some(k) => player_sort_key_for(trim_seq(k)),
                    None => ReplayCachePlayerSortKey::LastSeen,
                }
                &&& r.0@.sort_direction == match opt_view(req.sort_direction) {
                    Some(v) => if lower_seq(trim_seq(v)) == "asc"@ {
                        ReplayCacheSortDirection::Asc
                    } else if lower_seq(trim_seq(v)) == "desc"@ {
                        ReplayCacheSortDirection::Desc
                    } else {
                        ReplayCacheSortDirection::Desc
                    },
                    None => ReplayCacheSortDirection::Desc,
                }
                &&& r.0@.notes == player_notes@
                &&& r.1@ == players_log_path(requested_page(req), requested_rows(req), search)
            }),
    {
        let req = match request {
            Some(q) => q,
            None => ConfigPlayersPageRequest {
                limit: None,
                page: None,
                rows_per_page: None,
                search: None,
                sort_key: None,
                sort_direction: None,
            },
        };
        let page: usize = match req.page {
            Some(p) => if p < 1 {
                1
            } else {
                p
            },
            None => 1,
        };
        let rows: usize = match req.rows_per_page {
            Some(n) => if n > 0 {
                n
            } else {
                300
            },
            None => match req.limit {
                Some(n) => if n > 0 {
                    n
                } else {
                    300
                },
                None => 300,
            },
        };
        let search = match req.search {
            Some(s) => s,
            None => String::new(),
        };
        let sort_key = match &req.sort_key {
            Some(k) => ReplayCachePlayerSortKey::from_query_value(Some(k.as_str())),
            None => ReplayCachePlayerSortKey::from_query_value(None),
        };
        let sort_direction = match &req.sort_direction {
            Some(d) => ReplayCacheSortDirection::from_query_value(Some(d.as_str()), ReplayCacheSortDirection::Desc),
            None => ReplayCacheSortDirection::from_query_value(None, ReplayCacheSortDirection::Desc),
        };
        let mut path = String::from_str("/config/players?page=");
        append(&mut path, decimal_string(page as u64).as_str());
        append(&mut path, "&rows_per_page=");
        append(&mut path, decimal_string(rows as u64).as_str());
        append(&mut path, "&search=");
        append(&mut path, search.as_str());
        let query = ReplayCachePlayersPageQuery::new(
            ReplayCachePage::new(page, rows),
            search,
            sort_key,
            sort_direction,
            player_notes,
        );
        (query, path)
    }

    /// Sorts a configuration action: the two the settings handle themselves, or one for the
    /// overlay. Missing texts of the payload are read as empty.
    pub fn config_action_request(
        action: String,
        player: Option<String>,
        note: Option<String>,
        time: Option<String>,
    ) -> (r: ConfigActionRequest)
        ensures
            action@ == "set_player_note"@ ==> (r matches ConfigActionRequest::SetPlayerNote { player: p, note: n }
                && p@ == match opt_view(player) {
                Some(s) => s,
                None => Seq::empty(),
            } && n@ == match opt_view(note) {
                Some(s) => s,
                None => Seq::empty(),
            }),
            action@ == "set_latest_today_win_bonus_time"@ ==> (r matches ConfigActionRequest::SetLatestTodayWinBonusTime {
                time: t,
            } && t@ == match opt_view(time) {
                Some(s) => s,
                None => Seq::empty(),
            }),
            action@ != "set_player_note"@ && action@ != "set_latest_today_win_bonus_time"@ ==> (r matches ConfigActionRequest::Overlay {
                action: a,
            } && a@ == action@),
    {
        proof {
            reveal_strlit("set_player_note");
            reveal_strlit("set_latest_today_win_bonus_time");
            assert("set_player_note"@.len() != "set_latest_today_win_bonus_time"@.len());
        }
        if str_eq(action.as_str(), "set_player_note") {
            ConfigActionRequest::SetPlayerNote {
                player: match player {
                    Some(s) => s,
                    None => String::new(),
                },
                note: match note {
                    Some(s) => s,
                    None => String::new(),
                },
            }
        } else if str_eq(action.as_str(), "set_latest_today_win_bonus_time") {
            let t = match time {
                Some(s) => s,
                None => String::new(),
            };
            ConfigActionRequest::SetLatestTodayWinBonusTime { time: t }
        } else {
            ConfigActionRequest::Overlay { action }
        }
    }

    /// The answer to a saved player note: cleared when the note is blank.
    pub fn player_note_response(note_value: &str) -> (r: OverlayActionResponse)
        ensures
            response_is(
                r,
                true,
                None,
                if trim_seq(note_value@).len() == 0 {
                    "Player note cleared."@
                } else {
                    "Player note saved."@
                },
            ),
    {
        let t = trim(note_value);
        if t.as_str().is_empty() {
            OverlayActionResponse::success(String::from_str("Player note cleared."))
        } else {
            OverlayActionResponse::success(String::from_str("Player note saved."))
        }
    }

    /// The answer to an action nobody handles.
    pub fn unsupported_action_response(action: &str) -> (r: OverlayActionResponse)
        ensures
            response_is(r, false, None, "Unsupported action: "@ + action@),
    {
        let mut m = String::from_str("Unsupported action: ");
        append(&mut m, action);
        OverlayActionResponse::failure(m)
    }

    /// The latest first-win-bonus time to save: the given time, trimmed, as the same instant in
    /// UTC to the second; an error when it is not an RFC 3339 time.
    pub fn latest_today_win_bonus_time(raw: &str) -> (r: Result<String, String>)
        ensures
            match utc_rfc3339_seconds(trim_seq(raw@)) {
                Some(t) => r matches Ok(s) && s@ == t,
                None => r matches Err(e) && e@ == "Invalid latest first win bonus time"@,
            },
    {
        let t = trim(raw);
        match parse_rfc3339_to_utc_seconds(t.as_str()) {
            Some(s) => Ok(s),
            None => Err(String::from_str("Invalid latest first win bonus time")),
        }
    }

    /// The answer once the latest first-win-bonus time is saved.
    pub fn latest_today_win_bonus_time_response() -> (r: OverlayActionResponse)
        ensures
            response_is(r, true, None, "Latest first win bonus time saved."@),
    {
        OverlayActionResponse::success(String::from_str("Latest first win bonus time saved."))
    }
}

/// Which statistics action was asked for.
#[derive(Clone, Copy, Debug, PartialEq, Eq, Structural)]
pub enum StatsActionKind {
    FrontendReady,
    StartSimpleAnalysis,
    RunDetailedAnalysis,
    StopDetailedAnalysis,
    DumpData,
    DeleteParsedData,
    SetDetailedAnalysisAtStart,
    RevealFile,
    Unsupported,
}

/// The statistics action that `action` names.
pub open spec fn stats_action_kind_spec(action: Seq<char>) -> StatsActionKind {
    if action == "frontend_ready"@ {
        StatsActionKind::FrontendReady
    } else if action == "start_simple_analysis"@ {
        StatsActionKind::StartSimpleAnalysis
    } else if action == "run_detailed_analysis"@ {
        StatsActionKind::RunDetailedAnalysis
    } else if action == "stop_detailed_analysis"@ {
        StatsActionKind::StopDetailedAnalysis
    } else if action == "dump_data"@ {
        StatsActionKind::DumpData
    } else if action == "delete_parsed_data"@ {
        StatsActionKind::DeleteParsedData
    } else if action == "set_detailed_analysis_atstart"@ {
        StatsActionKind::SetDetailedAnalysisAtStart
    } else if action == "reveal_file"@ {
        StatsActionKind::RevealFile
    } else {
        StatsActionKind::Unsupported
    }
}

/// Statistics requests of the front end.
pub struct StatsCommands;

impl StatsCommands {
    /// The request line logged for a statistics read: with the query when it is not blank.
    pub fn stats_request_path(query: Option<String>) -> (r: String)
        ensures
            r@ == match opt_view(query) {
                Some(q) => if trim_seq(q).len() > 0 {
                    "/config/stats?"@ + q
                } else {
                    "/config/stats"@
                },
                None => "/config/stats"@,
            },
    {
        match query {
            Some(q) => {
                let t = trim(q.as_str());
                if t.as_str().is_empty() {
                    String::from_str("/config/stats")
                } else {
                    let mut p = String::from_str("/config/stats?");
                    append(&mut p, q.as_str());
                    p
                }
            },
            None => String::from_str("/config/stats"),
        }
    }

    /// The statistics action that `action` names.
    pub fn stats_action_kind(action: &str) -> (r: StatsActionKind)
        ensures
            r == stats_action_kind_spec(action@),
    {
        if str_eq(action, "frontend_ready") {
            StatsActionKind::FrontendReady
        } else if str_eq(action, "start_simple_analysis") {
            StatsActionKind::StartSimpleAnalysis
        } else if str_eq(action, "run_detailed_analysis") {
            StatsActionKind::RunDetailedAnalysis
        } else if str_eq(action, "stop_detailed_analysis") {
            StatsActionKind::StopDetailedAnalysis
        } else if str_eq(action, "dump_data") {
            StatsActionKind::DumpData
        } else if str_eq(action, "delete_parsed_data") {
            StatsActionKind::DeleteParsedData
        } else if str_eq(action, "set_detailed_analysis_atstart") {
            StatsActionKind::SetDetailedAnalysisAtStart
        } else if str_eq(action, "reveal_file") {
            StatsActionKind::RevealFile
        } else {
            StatsActionKind::Unsupported
        }
    }

    /// Whether a stop of detailed analysis is to be requested: only while a detailed analysis
    /// runs.
    pub fn should_request_detailed_stop(analysis_running: bool, running_mode_is_detailed: bool) -> (r: bool)
        ensures
            r == (analysis_running && running_mode_is_detailed),
    {
        analysis_running && running_mode_is_detailed
    }

    /// The message after a stop of detailed analysis was asked for: `requested` is whether a
    /// stop was requested (nothing when no detailed analysis ran).
    pub fn stop_detailed_analysis_message(requested: Option<bool>) -> (r: &'static str)
        ensures
            r@ == match requested {
                None => "Detailed analysis is not running."@,
                Some(true) => "Detailed analysis will stop after the current work finishes."@,
                Some(false) => "Detailed analysis stop could not be requested."@,
            },
    {
        match requested {
            None => "Detailed analysis is not running.",
            Some(true) => "Detailed analysis will stop after the current work finishes.",
            Some(false) => "Detailed analysis stop could not be requested.",
        }
    }

    /// The message after a file was to be revealed: `outcome` is what revealing it gave
    /// (nothing when no file was named).
    pub fn reveal_file_message(file: &str, outcome: Option<Result<(), String>>) -> (r: String)
        ensures
            r@ == match outcome {
                None => "No replay file specified to reveal."@,
                Some(Ok(())) => "Revealing file: "@ + file@,
                Some(Err(e)) => "Unable to reveal file: "@ + e@,
            },
    {
        match outcome {
            None => String::from_str("No replay file specified to reveal."),
            Some(Ok(())) => {
                let mut m = String::from_str("Revealing file: ");
                append(&mut m, file);
                m
            },
            Some(Err(e)) => {
                let mut m = String::from_str("Unable to reveal file: ");
                append(&mut m, e.as_str());
                m
            },
        }
    }

    /// The message after the statistics were to be dumped to `path`: `outcome` is nothing when
    /// they were written, else which step failed (`true` for serializing) and its error text.
    pub fn dump_data_message(path: &str, outcome: Option<(bool, String)>) -> (r: String)
        ensures
            r@ == match outcome {
                None => "Data dumped to "@ + path@,
                Some((true, e)) => "Failed to serialize dump: "@ + e@,
                Some((false, e)) => "Failed to write dump: "@ + e@,
            },
    {
        match outcome {
            None => {
                let mut m = String::from_str("Data dumped to ");
                append(&mut m, path);
                m
            },
            Some((serializing, e)) => {
                let mut m = if serializing {
                    String::from_str("Failed to serialize dump: ")
                } else {
                    String::from_str("Failed to write dump: ")
                };
                append(&mut m, e.as_str());
                m
            },
        }
    }

    /// The closing message of a statistics action: processed, or unsupported.
    pub fn action_outcome_message(kind: StatsActionKind, action: &str) -> (r: (bool, String))
        ensures
            kind == StatsActionKind::Unsupported ==> r.0 == false && r.1@ == "Unsupported action: "@ + action@,
            kind != StatsActionKind::Unsupported ==> r.0 == true && r.1@ == "Action processed"@,
    {
        match kind {
            StatsActionKind::Unsupported => {
                let mut m = String::from_str("Unsupported action: ");
                append(&mut m, action);
                (false, m)
            },
            _ => (true, String::from_str("Action processed")),
        }
    }
}


/// Settings compared with themselves ask the running app to redo nothing.
pub proof fn law_unchanged_settings_need_no_work(a: crate::app_settings::AppSettingsView, keys: Seq<&'static str>)
    ensures
        !any_differs(a, a, keys),
        !setting_differs(a, a, "account_folder"@),
{
    assert forall|i: int| 0 <= i < keys.len() implies !setting_differs(a, a, (#[trigger] keys[i])@) by {
        crate::app_settings::law_setting_differs_reflexive_symmetric(a, a, keys[i]@);
    }
    crate::app_settings::law_setting_differs_reflexive_symmetric(a, a, "account_folder"@);
}

} // verus!
