use vstd::prelude::*;

use crate::db_core::{normalized_handle_spec, ReplayCacheStatsFactOps};
use crate::overlay_info::{
    normalize_hotkey_spec, OverlayInfoOps, ResolvedHotkeyBinding, RuntimeFlags, OVERLAY_HOTKEY_BINDINGS,
    OVERLAY_HOTKEY_DEFAULTS,
};
use crate::performance_overlay::{
    max_u32, required_window_height_spec, PerformanceGeometry, PerformanceGeometryView, MIN_WINDOW_WIDTH,
};
use crate::shared_types::OverlayInitColorsDurationPayload;
use crate::text::{
    chars_eq_str, chars_of, copy_range, decimal_seq, decimal_string, push_decimal, sanitize_replay_text,
    sanitize_spec, str_eq, string_from_chars, trim, trim_seq, trimmed_chars, has_char, has_char_exec,
};
use crate::text_map::{equal_flag_maps, equal_text_maps, pair_views, pairs_map, text_values, TextMap, TextSet};

verus! {

/// Randomizer selections: which commanders and prestiges may be drawn.
pub type RandomizerChoices = TextMap<bool>;

/// Notes on players, keyed by handle.
pub type PlayerNotes = TextMap<String>;

pub open spec fn opt_text(o: Option<String>) -> Option<Seq<char>> {
    match o {
        Some(s) => Some(s@),
        None => None,
    }
}

pub open spec fn geom_view(g: Option<[i32; 4]>) -> Option<Seq<i32>> {
    match g {
        Some(a) => Some(a@),
        None => None,
    }
}

pub open spec fn texts(v: Seq<String>) -> Seq<Seq<char>> {
    v.map_values(|s: String| s@)
}

/// The settings as plain values.
pub struct AppSettingsView {
    pub start_with_windows: bool,
    pub minimize_to_tray: bool,
    pub start_minimized: bool,
    pub auto_update: bool,
    pub duration: u32,
    pub show_player_winrates: bool,
    pub show_replay_info_after_game: bool,
    pub show_session: bool,
    pub show_charts: bool,
    pub hide_nicknames_in_overlay: bool,
    pub account_folder: Seq<char>,
    pub screenshot_folder: Seq<char>,
    pub color_player1: Seq<char>,
    pub color_player2: Seq<char>,
    pub color_amon: Seq<char>,
    pub color_mastery: Seq<char>,
    pub hotkey_show_hide: Option<Seq<char>>,
    pub hotkey_show: Option<Seq<char>>,
    pub hotkey_hide: Option<Seq<char>>,
    pub hotkey_newer: Option<Seq<char>>,
    pub hotkey_older: Option<Seq<char>>,
    pub hotkey_winrates: Option<Seq<char>>,
    pub enable_logging: bool,
    pub dark_theme: bool,
    pub language: Seq<char>,
    pub monitor: usize,
    pub performance_show: bool,
    pub performance_hotkey: Option<Seq<char>>,
    pub performance_processes: Seq<Seq<char>>,
    pub performance_geometry: Option<Seq<i32>>,
    pub rng_choices: Map<Seq<char>, bool>,
    pub player_notes: Map<Seq<char>, Seq<char>>,
    pub main_names: Seq<Seq<char>>,
    pub detailed_analysis_atstart: bool,
    pub analysis_worker_threads: usize,
    pub present_keys: Set<Seq<char>>,
}

/// The user's settings, and which of them the saved settings file named.
pub struct AppSettings {
    start_with_windows: bool,
    minimize_to_tray: bool,
    start_minimized: bool,
    auto_update: bool,
    duration: u32,
    show_player_winrates: bool,
    show_replay_info_after_game: bool,
    show_session: bool,
    show_charts: bool,
    hide_nicknames_in_overlay: bool,
    account_folder: String,
    screenshot_folder: String,
    color_player1: String,
    color_player2: String,
    color_amon: String,
    color_mastery: String,
    hotkey_show_hide: Option<String>,
    hotkey_show: Option<String>,
    hotkey_hide: Option<String>,
    hotkey_newer: Option<String>,
    hotkey_older: Option<String>,
    hotkey_winrates: Option<String>,
    enable_logging: bool,
    dark_theme: bool,
    language: String,
    monitor: usize,
    performance_show: bool,
    performance_hotkey: Option<String>,
    performance_processes: Vec<String>,
    performance_geometry: Option<[i32; 4]>,
    rng_choices: RandomizerChoices,
    player_notes: PlayerNotes,
    main_names: Vec<String>,
    detailed_analysis_atstart: bool,
    analysis_worker_threads: usize,
    present_keys: TextSet,
}

impl View for AppSettings {
    type V = AppSettingsView;

    closed spec fn view(&self) -> AppSettingsView {
        AppSettingsView {
            start_with_windows: self.start_with_windows,
            minimize_to_tray: self.minimize_to_tray,
            start_minimized: self.start_minimized,
            auto_update: self.auto_update,
            duration: self.duration,
            show_player_winrates: self.show_player_winrates,
            show_replay_info_after_game: self.show_replay_info_after_game,
            show_session: self.show_session,
            show_charts: self.show_charts,
            hide_nicknames_in_overlay: self.hide_nicknames_in_overlay,
            account_folder: self.account_folder@,
            screenshot_folder: self.screenshot_folder@,
            color_player1: self.color_player1@,
            color_player2: self.color_player2@,
            color_amon: self.color_amon@,
            color_mastery: self.color_mastery@,
            hotkey_show_hide: opt_text(self.hotkey_show_hide),
            hotkey_show: opt_text(self.hotkey_show),
            hotkey_hide: opt_text(self.hotkey_hide),
            hotkey_newer: opt_text(self.hotkey_newer),
            hotkey_older: opt_text(self.hotkey_older),
            hotkey_winrates: opt_text(self.hotkey_winrates),
            enable_logging: self.enable_logging,
            dark_theme: self.dark_theme,
            language: self.language@,
            monitor: self.monitor,
            performance_show: self.performance_show,
            performance_hotkey: opt_text(self.performance_hotkey),
            performance_processes: texts(self.performance_processes@),
            performance_geometry: geom_view(self.performance_geometry),
            rng_choices: self.rng_choices.map(),
            player_notes: text_values(self.player_notes.map()),
            main_names: texts(self.main_names@),
            detailed_analysis_atstart: self.detailed_analysis_atstart,
            analysis_worker_threads: self.analysis_worker_threads,
            present_keys: self.present_keys.set(),
        }
    }
}

/// Position of a saved setting name in the settings file order (-1 for unknown names).
pub open spec fn setting_index(key: Seq<char>) -> int {
    if key == "start_with_windows"@ {
        0
    } else if key == "minimize_to_tray"@ {
        1
    } else if key == "start_minimized"@ {
        2
    } else if key == "auto_update"@ {
        3
    } else if key == "duration"@ {
        4
    } else if key == "show_player_winrates"@ {
        5
    } else if key == "show_replay_info_after_game"@ {
        6
    } else if key == "show_session"@ {
        7
    } else if key == "show_charts"@ {
        8
    } else if key == "hide_nicknames_in_overlay"@ {
        9
    } else if key == "account_folder"@ {
        10
    } else if key == "screenshot_folder"@ {
        11
    } else if key == "color_player1"@ {
        12
    } else if key == "color_player2"@ {
        13
    } else if key == "color_amon"@ {
        14
    } else if key == "color_mastery"@ {
        15
    } else if key == "hotkey_show/hide"@ {
        16
    } else if key == "hotkey_show"@ {
        17
    } else if key == "hotkey_hide"@ {
        18
    } else if key == "hotkey_newer"@ {
        19
    } else if key == "hotkey_older"@ {
        20
    } else if key == "hotkey_winrates"@ {
        21
    } else if key == "enable_logging"@ {
        22
    } else if key == "dark_theme"@ {
        23
    } else if key == "language"@ {
        24
    } else if key == "monitor"@ {
        25
    } else if key == "performance_show"@ {
        26
    } else if key == "performance_hotkey"@ {
        27
    } else if key == "performance_processes"@ {
        28
    } else if key == "performance_geometry"@ {
        29
    } else if key == "rng_choices"@ {
        30
    } else if key == "player_notes"@ {
        31
    } else if key == "main_names"@ {
        32
    } else if key == "detailed_analysis_atstart"@ {
        33
    } else if key == "analysis_worker_threads"@ {
        34
    } else {
        -1
    }
}

/// Whether the setting at position `i` differs between two settings.
pub open spec fn setting_differs_at(a: AppSettingsView, b: AppSettingsView, i: int) -> bool {
    if i == 0 {
        a.start_with_windows != b.start_with_windows
    } else if i == 1 {
        a.minimize_to_tray != b.minimize_to_tray
    } else if i == 2 {
        a.start_minimized != b.start_minimized
    } else if i == 3 {
        a.auto_update != b.auto_update
    } else if i == 4 {
        a.duration != b.duration
    } else if i == 5 {
        a.show_player_winrates != b.show_player_winrates
    } else if i == 6 {
        a.show_replay_info_after_game != b.show_replay_info_after_game
    } else if i == 7 {
        a.show_session != b.show_session
    } else if i == 8 {
        a.show_charts != b.show_charts
    } else if i == 9 {
        a.hide_nicknames_in_overlay != b.hide_nicknames_in_overlay
    } else if i == 10 {
        a.account_folder != b.account_folder
    } else if i == 11 {
        a.screenshot_folder != b.screenshot_folder
    } else if i == 12 {
        a.color_player1 != b.color_player1
    } else if i == 13 {
        a.color_player2 != b.color_player2
    } else if i == 14 {
        a.color_amon != b.color_amon
    } else if i == 15 {
        a.color_mastery != b.color_mastery
    } else if i == 16 {
        a.hotkey_show_hide != b.hotkey_show_hide
    } else if i == 17 {
        a.hotkey_show != b.hotkey_show
    } else if i == 18 {
        a.hotkey_hide != b.hotkey_hide
    } else if i == 19 {
        a.hotkey_newer != b.hotkey_newer
    } else if i == 20 {
        a.hotkey_older != b.hotkey_older
    } else if i == 21 {
        a.hotkey_winrates != b.hotkey_winrates
    } else if i == 22 {
        a.enable_logging != b.enable_logging
    } else if i == 23 {
        a.dark_theme != b.dark_theme
    } else if i == 24 {
        a.language != b.language
    } else if i == 25 {
        a.monitor != b.monitor
    } else if i == 26 {
        a.performance_show != b.performance_show
    } else if i == 27 {
        a.performance_hotkey != b.performance_hotkey
    } else if i == 28 {
        a.performance_processes != b.performance_processes
    } else if i == 29 {
        a.performance_geometry != b.performance_geometry
    } else if i == 30 {
        a.rng_choices != b.rng_choices
    } else if i == 31 {
        a.player_notes != b.player_notes
    } else if i == 32 {
        a.main_names != b.main_names
    } else if i == 33 {
        a.detailed_analysis_atstart != b.detailed_analysis_atstart
    } else if i == 34 {
        a.analysis_worker_threads != b.analysis_worker_threads
    } else {
        false
    }
}

/// Whether the setting saved under `key` differs between two settings (an unknown key never
/// differs).
pub open spec fn setting_differs(a: AppSettingsView, b: AppSettingsView, key: Seq<char>) -> bool {
    setting_differs_at(a, b, setting_index(key))
}

/// The text of a setting that holds text (nothing for other settings and unset ones).
pub open spec fn setting_text(v: AppSettingsView, key: Seq<char>) -> Option<Seq<char>> {
    if key == "account_folder"@ {
        Some(v.account_folder)
    } else if key == "screenshot_folder"@ {
        Some(v.screenshot_folder)
    } else if key == "color_player1"@ {
        Some(v.color_player1)
    } else if key == "color_player2"@ {
        Some(v.color_player2)
    } else if key == "color_amon"@ {
        Some(v.color_amon)
    } else if key == "color_mastery"@ {
        Some(v.color_mastery)
    } else if key == "hotkey_show/hide"@ {
        v.hotkey_show_hide
    } else if key == "hotkey_show"@ {
        v.hotkey_show
    } else if key == "hotkey_hide"@ {
        v.hotkey_hide
    } else if key == "hotkey_newer"@ {
        v.hotkey_newer
    } else if key == "hotkey_older"@ {
        v.hotkey_older
    } else if key == "hotkey_winrates"@ {
        v.hotkey_winrates
    } else if key == "language"@ {
        Some(v.language)
    } else if key == "performance_hotkey"@ {
        v.performance_hotkey
    } else {
        None
    }
}

/// Whether the value saved under `key` switches a binding off: `false`, or blank text.
pub open spec fn setting_disables(v: AppSettingsView, key: Seq<char>) -> bool {
    if key == "start_with_windows"@ {
        !v.start_with_windows
    } else if key == "minimize_to_tray"@ {
        !v.minimize_to_tray
    } else if key == "start_minimized"@ {
        !v.start_minimized
    } else if key == "auto_update"@ {
        !v.auto_update
    } else if key == "show_player_winrates"@ {
        !v.show_player_winrates
    } else if key == "show_replay_info_after_game"@ {
        !v.show_replay_info_after_game
    } else if key == "show_session"@ {
        !v.show_session
    } else if key == "show_charts"@ {
        !v.show_charts
    } else if key == "hide_nicknames_in_overlay"@ {
        !v.hide_nicknames_in_overlay
    } else if key == "account_folder"@ {
        trim_seq(v.account_folder).len() == 0
    } else if key == "screenshot_folder"@ {
        trim_seq(v.screenshot_folder).len() == 0
    } else if key == "color_player1"@ {
        trim_seq(v.color_player1).len() == 0
    } else if key == "color_player2"@ {
        trim_seq(v.color_player2).len() == 0
    } else if key == "color_amon"@ {
        trim_seq(v.color_amon).len() == 0
    } else if key == "color_mastery"@ {
        trim_seq(v.color_mastery).len() == 0
    } else if key == "hotkey_show/hide"@ {
        (v.hotkey_show_hide matches Some(t) && trim_seq(t).len() == 0)
    } else if key == "hotkey_show"@ {
        (v.hotkey_show matches Some(t) && trim_seq(t).len() == 0)
    } else if key == "hotkey_hide"@ {
        (v.hotkey_hide matches Some(t) && trim_seq(t).len() == 0)
    } else if key == "hotkey_newer"@ {
        (v.hotkey_newer matches Some(t) && trim_seq(t).len() == 0)
    } else if key == "hotkey_older"@ {
        (v.hotkey_older matches Some(t) && trim_seq(t).len() == 0)
    } else if key == "hotkey_winrates"@ {
        (v.hotkey_winrates matches Some(t) && trim_seq(t).len() == 0)
    } else if key == "enable_logging"@ {
        !v.enable_logging
    } else if key == "dark_theme"@ {
        !v.dark_theme
    } else if key == "language"@ {
        trim_seq(v.language).len() == 0
    } else if key == "performance_show"@ {
        !v.performance_show
    } else if key == "performance_hotkey"@ {
        (v.performance_hotkey matches Some(t) && trim_seq(t).len() == 0)
    } else if key == "detailed_analysis_atstart"@ {
        !v.detailed_analysis_atstart
    } else {
        false
    }
}

} // verus!

verus! {

fn opt_text_eq(a: &Option<String>, b: &Option<String>) -> (r: bool)
    ensures
        r == (opt_text(*a) == opt_text(*b)),
{
    match (a, b) {
        (Some(x), Some(y)) => str_eq(x.as_str(), y.as_str()),
        (None, None) => true,
        _ => false,
    }
}

fn text_list_eq(a: &Vec<String>, b: &Vec<String>) -> (r: bool)
    ensures
        r == (texts(a@) == texts(b@)),
{
    if a.len() != b.len() {
        assert(texts(a@).len() != texts(b@).len());
        return false;
    }
    for i in 0..a.len()
        invariant
            a@.len() == b@.len(),
            forall|j: int| 0 <= j < i ==> a@[j]@ == b@[j]@,
    {
        if !str_eq(a[i].as_str(), b[i].as_str()) {
            assert(texts(a@)[i as int] != texts(b@)[i as int]);
            return false;
        }
    }
    assert(texts(a@) =~= texts(b@));
    true
}

fn geometry_eq(a: &Option<[i32; 4]>, b: &Option<[i32; 4]>) -> (r: bool)
    ensures
        r == (geom_view(*a) == geom_view(*b)),
{
    match (a, b) {
        (Some(x), Some(y)) => {
            let same = x[0] == y[0] && x[1] == y[1] && x[2] == y[2] && x[3] == y[3];
            proof {
                if same {
                    assert(x@ =~= y@);
                } else {
                    assert(x@ != y@) by {
                        if x@ == y@ {
                            assert(x@[0] == y@[0] && x@[1] == y@[1] && x@[2] == y@[2] && x@[3] == y@[3]);
                        }
                    }
                }
            }
            same
        },
        (None, None) => true,
        _ => false,
    }
}

impl AppSettings {
    /// The three sorted collections keep their order.
    pub closed spec fn wf(self) -> bool {
        &&& self.rng_choices.wf()
        &&& self.player_notes.wf()
        &&& self.present_keys.wf()
    }

    /// Position of a saved setting name (-1 for unknown names).
    fn setting_index(key: &str) -> (r: i8)
        ensures
            r as int == setting_index(key@),
    {
        let k = chars_of(key);
        if chars_eq_str(&k, "start_with_windows") {
            0
        } else if chars_eq_str(&k, "minimize_to_tray") {
            1
        } else if chars_eq_str(&k, "start_minimized") {
            2
        } else if chars_eq_str(&k, "auto_update") {
            3
        } else if chars_eq_str(&k, "duration") {
            4
        } else if chars_eq_str(&k, "show_player_winrates") {
            5
        } else if chars_eq_str(&k, "show_replay_info_after_game") {
            6
        } else if chars_eq_str(&k, "show_session") {
            7
        } else if chars_eq_str(&k, "show_charts") {
            8
        } else if chars_eq_str(&k, "hide_nicknames_in_overlay") {
            9
        } else if chars_eq_str(&k, "account_folder") {
            10
        } else if chars_eq_str(&k, "screenshot_folder") {
            11
        } else if chars_eq_str(&k, "color_player1") {
            12
        } else if chars_eq_str(&k, "color_player2") {
            13
        } else if chars_eq_str(&k, "color_amon") {
            14
        } else if chars_eq_str(&k, "color_mastery") {
            15
        } else if chars_eq_str(&k, "hotkey_show/hide") {
            16
        } else if chars_eq_str(&k, "hotkey_show") {
            17
        } else if chars_eq_str(&k, "hotkey_hide") {
            18
        } else if chars_eq_str(&k, "hotkey_newer") {
            19
        } else if chars_eq_str(&k, "hotkey_older") {
            20
        } else if chars_eq_str(&k, "hotkey_winrates") {
            21
        } else if chars_eq_str(&k, "enable_logging") {
            22
        } else if chars_eq_str(&k, "dark_theme") {
            23
        } else if chars_eq_str(&k, "language") {
            24
        } else if chars_eq_str(&k, "monitor") {
            25
        } else if chars_eq_str(&k, "performance_show") {
            26
        } else if chars_eq_str(&k, "performance_hotkey") {
            27
        } else if chars_eq_str(&k, "performance_processes") {
            28
        } else if chars_eq_str(&k, "performance_geometry") {
            29
        } else if chars_eq_str(&k, "rng_choices") {
            30
        } else if chars_eq_str(&k, "player_notes") {
            31
        } else if chars_eq_str(&k, "main_names") {
            32
        } else if chars_eq_str(&k, "detailed_analysis_atstart") {
            33
        } else if chars_eq_str(&k, "analysis_worker_threads") {
            34
        } else {
            -1
        }
    }

    /// Whether the setting saved under `key` changed between `prev` and `next`.
    #[verifier::rlimit(100)]
    pub fn setting_value_changed(prev: &AppSettings, next: &AppSettings, key: &str) -> (r: bool)
        requires
            prev.wf(),
            next.wf(),
        ensures
            r == setting_differs(prev@, next@, key@),
    {
        let i = Self::setting_index(key);
        match i {
            0 => prev.start_with_windows != next.start_with_windows,
            1 => prev.minimize_to_tray != next.minimize_to_tray,
            2 => prev.start_minimized != next.start_minimized,
            3 => prev.auto_update != next.auto_update,
            4 => prev.duration != next.duration,
            5 => prev.show_player_winrates != next.show_player_winrates,
            6 => prev.show_replay_info_after_game != next.show_replay_info_after_game,
            7 => prev.show_session != next.show_session,
            8 => prev.show_charts != next.show_charts,
            9 => prev.hide_nicknames_in_overlay != next.hide_nicknames_in_overlay,
            10 => !str_eq(prev.account_folder.as_str(), next.account_folder.as_str()),
            11 => !str_eq(prev.screenshot_folder.as_str(), next.screenshot_folder.as_str()),
            12 => !str_eq(prev.color_player1.as_str(), next.color_player1.as_str()),
            13 => !str_eq(prev.color_player2.as_str(), next.color_player2.as_str()),
            14 => !str_eq(prev.color_amon.as_str(), next.color_amon.as_str()),
            15 => !str_eq(prev.color_mastery.as_str(), next.color_mastery.as_str()),
            16 => !opt_text_eq(&prev.hotkey_show_hide, &next.hotkey_show_hide),
            17 => !opt_text_eq(&prev.hotkey_show, &next.hotkey_show),
            18 => !opt_text_eq(&prev.hotkey_hide, &next.hotkey_hide),
            19 => !opt_text_eq(&prev.hotkey_newer, &next.hotkey_newer),
            20 => !opt_text_eq(&prev.hotkey_older, &next.hotkey_older),
            21 => !opt_text_eq(&prev.hotkey_winrates, &next.hotkey_winrates),
            22 => prev.enable_logging != next.enable_logging,
            23 => prev.dark_theme != next.dark_theme,
            24 => !str_eq(prev.language.as_str(), next.language.as_str()),
            25 => prev.monitor != next.monitor,
            26 => prev.performance_show != next.performance_show,
            27 => !opt_text_eq(&prev.performance_hotkey, &next.performance_hotkey),
            28 => !text_list_eq(&prev.performance_processes, &next.performance_processes),
            29 => !geometry_eq(&prev.performance_geometry, &next.performance_geometry),
            30 => !equal_flag_maps(&prev.rng_choices, &next.rng_choices),
            31 => !equal_text_maps(&prev.player_notes, &next.player_notes),
            32 => !text_list_eq(&prev.main_names, &next.main_names),
            33 => prev.detailed_analysis_atstart != next.detailed_analysis_atstart,
            34 => prev.analysis_worker_threads != next.analysis_worker_threads,
            _ => false,
        }
    }


    /// Whether any of the settings saved under `keys` changed.
    pub fn any_setting_changed(prev: &AppSettings, next: &AppSettings, keys: &[&str]) -> (r: bool)
        requires
            prev.wf(),
            next.wf(),
        ensures
            r == exists|i: int| 0 <= i < keys@.len() && setting_differs(prev@, next@, (#[trigger] keys@[i])@),
    {
        for i in 0..keys.len()
            invariant
                prev.wf(),
                next.wf(),
                forall|j: int| 0 <= j < i ==> !setting_differs(prev@, next@, (#[trigger] keys@[j])@),
        {
            if Self::setting_value_changed(prev, next, keys[i]) {
                return true;
            }
        }
        false
    }

    /// The text saved under `key`, for settings that hold text.
    fn setting_text(&self, key: &str) -> (r: Option<&str>)
        ensures
            match r {
                Some(s) => setting_text(self@, key@) == Some(s@),
                None => setting_text(self@, key@) is None,
            },
    {
        let k = chars_of(key);
        if chars_eq_str(&k, "account_folder") {
            Some(self.account_folder.as_str())
        } else if chars_eq_str(&k, "screenshot_folder") {
            Some(self.screenshot_folder.as_str())
        } else if chars_eq_str(&k, "color_player1") {
            Some(self.color_player1.as_str())
        } else if chars_eq_str(&k, "color_player2") {
            Some(self.color_player2.as_str())
        } else if chars_eq_str(&k, "color_amon") {
            Some(self.color_amon.as_str())
        } else if chars_eq_str(&k, "color_mastery") {
            Some(self.color_mastery.as_str())
        } else if chars_eq_str(&k, "hotkey_show/hide") {
            match &self.hotkey_show_hide {
                Some(s) => Some(s.as_str()),
                None => None,
            }
        } else if chars_eq_str(&k, "hotkey_show") {
            match &self.hotkey_show {
                Some(s) => Some(s.as_str()),
                None => None,
            }
        } else if chars_eq_str(&k, "hotkey_hide") {
            match &self.hotkey_hide {
                Some(s) => Some(s.as_str()),
                None => None,
            }
        } else if chars_eq_str(&k, "hotkey_newer") {
            match &self.hotkey_newer {
                Some(s) => Some(s.as_str()),
                None => None,
            }
        } else if chars_eq_str(&k, "hotkey_older") {
            match &self.hotkey_older {
                Some(s) => Some(s.as_str()),
                None => None,
            }
        } else if chars_eq_str(&k, "hotkey_winrates") {
            match &self.hotkey_winrates {
                Some(s) => Some(s.as_str()),
                None => None,
            }
        } else if chars_eq_str(&k, "language") {
            Some(self.language.as_str())
        } else if chars_eq_str(&k, "performance_hotkey") {
            match &self.performance_hotkey {
                Some(s) => Some(s.as_str()),
                None => None,
            }
        } else {
            None
        }
    }

    /// Whether the value saved under `key` switches a binding off.
    fn setting_disables(&self, key: &str) -> (r: bool)
        ensures
            r == setting_disables(self@, key@),
    {
        let k = chars_of(key);
        if chars_eq_str(&k, "start_with_windows") {
            !self.start_with_windows
        } else if chars_eq_str(&k, "minimize_to_tray") {
            !self.minimize_to_tray
        } else if chars_eq_str(&k, "start_minimized") {
            !self.start_minimized
        } else if chars_eq_str(&k, "auto_update") {
            !self.auto_update
        } else if chars_eq_str(&k, "show_player_winrates") {
            !self.show_player_winrates
        } else if chars_eq_str(&k, "show_replay_info_after_game") {
            !self.show_replay_info_after_game
        } else if chars_eq_str(&k, "show_session") {
            !self.show_session
        } else if chars_eq_str(&k, "show_charts") {
            !self.show_charts
        } else if chars_eq_str(&k, "hide_nicknames_in_overlay") {
            !self.hide_nicknames_in_overlay
        } else if chars_eq_str(&k, "account_folder") {
            trimmed_chars(self.account_folder.as_str()).len() == 0
        } else if chars_eq_str(&k, "screenshot_folder") {
            trimmed_chars(self.screenshot_folder.as_str()).len() == 0
        } else if chars_eq_str(&k, "color_player1") {
            trimmed_chars(self.color_player1.as_str()).len() == 0
        } else if chars_eq_str(&k, "color_player2") {
            trimmed_chars(self.color_player2.as_str()).len() == 0
        } else if chars_eq_str(&k, "color_amon") {
            trimmed_chars(self.color_amon.as_str()).len() == 0
        } else if chars_eq_str(&k, "color_mastery") {
            trimmed_chars(self.color_mastery.as_str()).len() == 0
        } else if chars_eq_str(&k, "hotkey_show/hide") {
            match &self.hotkey_show_hide {
                Some(s) => trimmed_chars(s.as_str()).len() == 0,
                None => false,
            }
        } else if chars_eq_str(&k, "hotkey_show") {
            match &self.hotkey_show {
                Some(s) => trimmed_chars(s.as_str()).len() == 0,
                None => false,
            }
        } else if chars_eq_str(&k, "hotkey_hide") {
            match &self.hotkey_hide {
                Some(s) => trimmed_chars(s.as_str()).len() == 0,
                None => false,
            }
        } else if chars_eq_str(&k, "hotkey_newer") {
            match &self.hotkey_newer {
                Some(s) => trimmed_chars(s.as_str()).len() == 0,
                None => false,
            }
        } else if chars_eq_str(&k, "hotkey_older") {
            match &self.hotkey_older {
                Some(s) => trimmed_chars(s.as_str()).len() == 0,
                None => false,
            }
        } else if chars_eq_str(&k, "hotkey_winrates") {
            match &self.hotkey_winrates {
                Some(s) => trimmed_chars(s.as_str()).len() == 0,
                None => false,
            }
        } else if chars_eq_str(&k, "enable_logging") {
            !self.enable_logging
        } else if chars_eq_str(&k, "dark_theme") {
            !self.dark_theme
        } else if chars_eq_str(&k, "language") {
            trimmed_chars(self.language.as_str()).len() == 0
        } else if chars_eq_str(&k, "performance_show") {
            !self.performance_show
        } else if chars_eq_str(&k, "performance_hotkey") {
            match &self.performance_hotkey {
                Some(s) => trimmed_chars(s.as_str()).len() == 0,
                None => false,
            }
        } else if chars_eq_str(&k, "detailed_analysis_atstart") {
            !self.detailed_analysis_atstart
        } else {
            false
        }
    }

    pub fn start_with_windows(&self) -> (r: bool)
        ensures
            r == self@.start_with_windows,
    {
        self.start_with_windows
    }

    pub fn minimize_to_tray(&self) -> (r: bool)
        ensures
            r == self@.minimize_to_tray,
    {
        self.minimize_to_tray
    }

    pub fn start_minimized(&self) -> (r: bool)
        ensures
            r == self@.start_minimized,
    {
        self.start_minimized
    }

    pub fn auto_update(&self) -> (r: bool)
        ensures
            r == self@.auto_update,
    {
        self.auto_update
    }

    pub fn duration(&self) -> (r: u32)
        ensures
            r == self@.duration,
    {
        self.duration
    }

    pub fn show_player_winrates(&self) -> (r: bool)
        ensures
            r == self@.show_player_winrates,
    {
        self.show_player_winrates
    }

    pub fn show_replay_info_after_game(&self) -> (r: bool)
        ensures
            r == self@.show_replay_info_after_game,
    {
        self.show_replay_info_after_game
    }

    pub fn show_session(&self) -> (r: bool)
        ensures
            r == self@.show_session,
    {
        self.show_session
    }

    pub fn show_charts(&self) -> (r: bool)
        ensures
            r == self@.show_charts,
    {
        self.show_charts
    }

    pub fn hide_nicknames_in_overlay(&self) -> (r: bool)
        ensures
            r == self@.hide_nicknames_in_overlay,
    {
        self.hide_nicknames_in_overlay
    }

    pub fn account_folder(&self) -> (r: &str)
        ensures
            r@ == self@.account_folder,
    {
        self.account_folder.as_str()
    }

    pub fn screenshot_folder(&self) -> (r: &str)
        ensures
            r@ == self@.screenshot_folder,
    {
        self.screenshot_folder.as_str()
    }

    pub fn color_player1(&self) -> (r: &str)
        ensures
            r@ == self@.color_player1,
    {
        self.color_player1.as_str()
    }

    pub fn color_player2(&self) -> (r: &str)
        ensures
            r@ == self@.color_player2,
    {
        self.color_player2.as_str()
    }

    pub fn color_amon(&self) -> (r: &str)
        ensures
            r@ == self@.color_amon,
    {
        self.color_amon.as_str()
    }

    pub fn color_mastery(&self) -> (r: &str)
        ensures
            r@ == self@.color_mastery,
    {
        self.color_mastery.as_str()
    }

    pub fn hotkey_show_hide(&self) -> (r: Option<&str>)
        ensures
            match r {
                Some(s) => self@.hotkey_show_hide == Some(s@),
                None => self@.hotkey_show_hide is None,
            },
    {
        match &self.hotkey_show_hide {
            Some(s) => Some(s.as_str()),
            None => None,
        }
    }

    pub fn hotkey_show(&self) -> (r: Option<&str>)
        ensures
            match r {
                Some(s) => self@.hotkey_show == Some(s@),
                None => self@.hotkey_show is None,
            },
    {
        match &self.hotkey_show {
            Some(s) => Some(s.as_str()),
            None => None,
        }
    }

    pub fn hotkey_hide(&self) -> (r: Option<&str>)
        ensures
            match r {
                Some(s) => self@.hotkey_hide == Some(s@),
                None => self@.hotkey_hide is None,
            },
    {
        match &self.hotkey_hide {
            Some(s) => Some(s.as_str()),
            None => None,
        }
    }

    pub fn hotkey_newer(&self) -> (r: Option<&str>)
        ensures
            match r {
                Some(s) => self@.hotkey_newer == Some(s@),
                None => self@.hotkey_newer is None,
            },
    {
        match &self.hotkey_newer {
            Some(s) => Some(s.as_str()),
            None => None,
        }
    }

    pub fn hotkey_older(&self) -> (r: Option<&str>)
        ensures
            match r {
                Some(s) => self@.hotkey_older == Some(s@),
                None => self@.hotkey_older is None,
            },
    {
        match &self.hotkey_older {
            Some(s) => Some(s.as_str()),
            None => None,
        }
    }

    pub fn hotkey_winrates(&self) -> (r: Option<&str>)
        ensures
            match r {
                Some(s) => self@.hotkey_winrates == Some(s@),
                None => self@.hotkey_winrates is None,
            },
    {
        match &self.hotkey_winrates {
            Some(s) => Some(s.as_str()),
            None => None,
        }
    }

    pub fn enable_logging(&self) -> (r: bool)
        ensures
            r == self@.enable_logging,
    {
        self.enable_logging
    }

    pub fn dark_theme(&self) -> (r: bool)
        ensures
            r == self@.dark_theme,
    {
        self.dark_theme
    }

    pub fn language(&self) -> (r: &str)
        ensures
            r@ == self@.language,
    {
        self.language.as_str()
    }

    pub fn monitor(&self) -> (r: usize)
        ensures
            r == self@.monitor,
    {
        self.monitor
    }

    pub fn performance_show(&self) -> (r: bool)
        ensures
            r == self@.performance_show,
    {
        self.performance_show
    }

    pub fn performance_hotkey(&self) -> (r: Option<&str>)
        ensures
            match r {
                Some(s) => self@.performance_hotkey == Some(s@),
                None => self@.performance_hotkey is None,
            },
    {
        match &self.performance_hotkey {
            Some(s) => Some(s.as_str()),
            None => None,
        }
    }

    pub fn performance_processes(&self) -> (r: &[String])
        ensures
            texts(r@) == self@.performance_processes,
    {
        self.performance_processes.as_slice()
    }

    pub fn performance_geometry(&self) -> (r: Option<[i32; 4]>)
        ensures
            geom_view(r) == self@.performance_geometry,
    {
        self.performance_geometry
    }

    pub fn rng_choices(&self) -> (r: &RandomizerChoices)
        requires
            self.wf(),
        ensures
            r.wf(),
            r.map() == self@.rng_choices,
    {
        &self.rng_choices
    }

    pub fn player_notes(&self) -> (r: &PlayerNotes)
        requires
            self.wf(),
        ensures
            r.wf(),
            text_values(r.map()) == self@.player_notes,
    {
        &self.player_notes
    }

    pub fn main_names_raw(&self) -> (r: &[String])
        ensures
            texts(r@) == self@.main_names,
    {
        self.main_names.as_slice()
    }

    pub fn detailed_analysis_atstart(&self) -> (r: bool)
        ensures
            r == self@.detailed_analysis_atstart,
    {
        self.detailed_analysis_atstart
    }

    pub fn analysis_worker_threads(&self) -> (r: usize)
        ensures
            r == self@.analysis_worker_threads,
    {
        self.analysis_worker_threads
    }

}

} // verus!

verus! {

/// The settings with the overlay hotkeys that have a built-in binding set to it where unset.
pub open spec fn with_default_hotkeys(v: AppSettingsView) -> AppSettingsView {
    AppSettingsView {
        hotkey_show_hide: if v.hotkey_show_hide is None {
            Some("Ctrl+Shift+8"@)
        } else {
            v.hotkey_show_hide
        },
        hotkey_newer: if v.hotkey_newer is None {
            Some("Ctrl+Alt+/"@)
        } else {
            v.hotkey_newer
        },
        hotkey_older: if v.hotkey_older is None {
            Some("Ctrl+Alt+8"@)
        } else {
            v.hotkey_older
        },
        hotkey_winrates: if v.hotkey_winrates is None {
            Some("Ctrl+Alt+-"@)
        } else {
            v.hotkey_winrates
        },
        ..v
    }
}

/// Logical cores used for analysis: the count the system reports, or 1 when it reports none.
pub open spec fn logical_cores(available_cores: Option<usize>) -> int {
    match available_cores {
        Some(n) => n as int,
        None => 1,
    }
}

/// Half the logical cores, at least one.
pub open spec fn default_worker_threads(available_cores: Option<usize>) -> int {
    if logical_cores(available_cores) / 2 < 1 {
        1
    } else {
        logical_cores(available_cores) / 2
    }
}

/// A worker count held between 1 and the logical cores.
pub open spec fn clamped_worker_threads(value: usize, available_cores: Option<usize>) -> int {
    if value < 1 {
        1
    } else if value > logical_cores(available_cores) {
        logical_cores(available_cores)
    } else {
        value as int
    }
}

/// The first of `keys` whose handle key is `handle_key`.
pub open spec fn first_key_with_handle(keys: Seq<Seq<char>>, handle_key: Seq<char>) -> Option<Seq<char>>
    decreases keys.len(),
{
    if keys.len() == 0 {
        None
    } else if normalized_handle_spec(keys[0]) == handle_key {
        Some(keys[0])
    } else {
        first_key_with_handle(keys.drop_first(), handle_key)
    }
}

/// The key a note on `handle` is filed under: the first existing key with the same handle
/// key, or else the cleaned, trimmed handle.
pub open spec fn note_key_spec(note_keys: Seq<Seq<char>>, handle: Seq<char>) -> Seq<char> {
    match first_key_with_handle(note_keys, normalized_handle_spec(handle)) {
        Some(k) => k,
        None => trim_seq(sanitize_spec(handle)),
    }
}

/// The notes once `note` is filed under `key`: a blank note removes the entry.
pub open spec fn notes_after_update(
    notes: Map<Seq<char>, Seq<char>>,
    key: Seq<char>,
    note: Seq<char>,
) -> Map<Seq<char>, Seq<char>> {
    if trim_seq(note).len() == 0 {
        notes.remove(key)
    } else {
        notes.insert(key, note)
    }
}

/// The note kept under exactly `handle`, trimmed, unless there is none or it is blank.
pub open spec fn player_note_spec(v: AppSettingsView, handle: Seq<char>) -> Option<Seq<char>> {
    if v.player_notes.contains_key(handle) && trim_seq(v.player_notes[handle]).len() > 0 {
        Some(trim_seq(v.player_notes[handle]))
    } else {
        None
    }
}

/// A note that is not blank reads back, trimmed, under the key it was filed under.
pub proof fn law_saved_note_reads_back(v: AppSettingsView, note_keys: Seq<Seq<char>>, handle: Seq<char>, note: Seq<char>)
    requires
        trim_seq(note).len() > 0,
    ensures
        ({
            let key = note_key_spec(note_keys, handle);
            player_note_spec(
                AppSettingsView { player_notes: notes_after_update(v.player_notes, key, note), ..v },
                key,
            ) == Some(trim_seq(note))
        }),
{
}

/// A blank note clears the note filed under that key.
pub proof fn law_blank_note_clears(v: AppSettingsView, note_keys: Seq<Seq<char>>, handle: Seq<char>, note: Seq<char>)
    requires
        trim_seq(note).len() == 0,
    ensures
        ({
            let key = note_key_spec(note_keys, handle);
            player_note_spec(
                AppSettingsView { player_notes: notes_after_update(v.player_notes, key, note), ..v },
                key,
            ) is None
        }),
{
}

/// Saving a note leaves the notes under every other key as they were.
pub proof fn law_note_update_keeps_others(
    notes: Map<Seq<char>, Seq<char>>,
    key: Seq<char>,
    note: Seq<char>,
    other: Seq<char>,
)
    requires
        other != key,
    ensures
        notes_after_update(notes, key, note).contains_key(other) == notes.contains_key(other),
        notes.contains_key(other) ==> notes_after_update(notes, key, note)[other] == notes[other],
{
}

/// No setting differs between a settings value and itself, and a difference goes both ways.
pub proof fn law_setting_differs_reflexive_symmetric(a: AppSettingsView, b: AppSettingsView, key: Seq<char>)
    ensures
        !setting_differs(a, a, key),
        setting_differs(a, b, key) == setting_differs(b, a, key),
{
    lemma_differs_at_reflexive_symmetric(a, b, setting_index(key));
}

#[verifier::rlimit(60)]
proof fn lemma_differs_at_reflexive_symmetric(a: AppSettingsView, b: AppSettingsView, i: int)
    ensures
        !setting_differs_at(a, a, i),
        setting_differs_at(a, b, i) == setting_differs_at(b, a, i),
{
}

/// Setting the unset overlay hotkeys twice changes nothing the second time.
pub proof fn law_default_hotkeys_idempotent(v: AppSettingsView)
    ensures
        with_default_hotkeys(with_default_hotkeys(v)) == with_default_hotkeys(v),
{
}

/// A worker count held to the logical cores is between 1 and their number.
pub proof fn law_clamped_workers_in_range(value: usize, available_cores: Option<usize>)
    requires
        available_cores matches Some(n) ==> n >= 1,
    ensures
        1 <= clamped_worker_threads(value, available_cores) <= logical_cores(available_cores),
        1 <= default_worker_threads(available_cores) <= logical_cores(available_cores),
{
}

/// The first `n` of `keys`, searched as [`first_key_with_handle`] searches.
proof fn lemma_first_key_step(keys: Seq<Seq<char>>, handle_key: Seq<char>, i: int)
    requires
        0 <= i < keys.len(),
        normalized_handle_spec(keys[i]) != handle_key,
    ensures
        first_key_with_handle(keys.skip(i), handle_key) == first_key_with_handle(keys.skip(i + 1), handle_key),
{
    assert(keys.skip(i).drop_first() =~= keys.skip(i + 1));
}

/// A hotkey setting with the shortcut it asks for, before the shortcut parser has read it.
pub struct HotkeyCandidate {
    pub path: &'static str,
    pub action: &'static str,
    pub shortcut: String,
}

/// The shortcut that the hotkey setting `path` asks for: its configured text, or (when unset)
/// the built-in default for that setting, in canonical form; nothing when blank, blocked, or
/// unset without a default.
pub open spec fn hotkey_request(configured: Option<Seq<char>>, default: Option<Seq<char>>) -> Option<Seq<char>> {
    match configured {
        None => match default {
            Some(d) => normalize_hotkey_spec(d),
            None => None,
        },
        Some(raw) => if trim_seq(raw).len() == 0 {
            None
        } else {
            normalize_hotkey_spec(raw)
        },
    }
}

/// A count as `u32`, saturating.
pub open spec fn saturate_u32(value: u64) -> u32 {
    if value <= u32::MAX {
        value as u32
    } else {
        u32::MAX
    }
}

/// The trimmed text of a text setting, when it is not blank.
pub open spec fn overlay_setting_spec(v: AppSettingsView, key: Seq<char>) -> Option<Seq<char>> {
    match setting_text(v, key) {
        Some(t) => if trim_seq(t).len() > 0 {
            Some(trim_seq(t))
        } else {
            None
        },
        None => None,
    }
}

/// The language the overlay is shown in: Korean when chosen, English otherwise.
pub open spec fn overlay_language_spec(language: Seq<char>) -> Seq<char> {
    if language == "ko"@ {
        "ko"@
    } else {
        "en"@
    }
}

/// The first `-`-separated part of a locale, or `en` when it is empty or there is no locale.
pub open spec fn language_from_locale_spec(locale: Option<Seq<char>>) -> Seq<char> {
    match locale {
        Some(l) => if before_dash(l).len() > 0 {
            before_dash(l)
        } else {
            "en"@
        },
        None => "en"@,
    }
}

/// The text before the first `-` (all of it when there is none).
pub open spec fn before_dash(s: Seq<char>) -> Seq<char>
    decreases s.len(),
{
    if s.len() == 0 || s[0] == '-' {
        Seq::empty()
    } else {
        seq![s[0]] + before_dash(s.drop_first())
    }
}

/// Process names that the performance overlay watches: the configured ones, trimmed and
/// without blanks, or the two game executables when none remain.
pub open spec fn performance_names_spec(configured: Seq<Seq<char>>) -> Seq<Seq<char>> {
    let kept = configured.map_values(|n: Seq<char>| trim_seq(n)).filter(|n: Seq<char>| n.len() > 0);
    if kept.len() == 0 {
        seq!["SC2_x64.exe"@, "SC2.exe"@]
    } else {
        kept
    }
}

pub struct AppSettingsOps;

impl AppSettingsOps {
    /// The system language as a settings value (see [`language_from_locale_spec`]).
    pub fn language_from_locale(locale: Option<&str>) -> (r: String)
        ensures
            r@ == language_from_locale_spec(match locale {
                Some(l) => Some(l@),
                None => None,
            }),
    {
        match locale {
            None => String::from_str("en"),
            Some(l) => {
                let v = chars_of(l);
                let mut k: usize = 0;
                proof {
                    assert(v@.skip(0) =~= v@);
                    assert(v@.subrange(0, 0) + before_dash(v@) =~= before_dash(v@));
                }
                while k < v.len() && v[k] != '-'
                    invariant
                        k <= v@.len(),
                        before_dash(v@) == v@.subrange(0, k as int) + before_dash(v@.skip(k as int)),
                    decreases v@.len() - k,
                {
                    proof {
                        assert(v@.skip(k as int).drop_first() =~= v@.skip(k + 1));
                        assert(v@.subrange(0, k as int) + (seq![v@[k as int]] + before_dash(v@.skip(k + 1))) =~= v@.subrange(0, k + 1) + before_dash(v@.skip(k + 1)));
                    }
                    k = k + 1;
                }
                proof {
                    assert(v@.skip(0) =~= v@);
                    assert(before_dash(v@.skip(k as int)) =~= Seq::<char>::empty());
                    assert(v@.subrange(0, k as int) + Seq::<char>::empty() =~= v@.subrange(0, k as int));
                }
                if k == 0 {
                    String::from_str("en")
                } else {
                    let part = copy_range(&v, 0, k);
                    string_from_chars(&part)
                }
            },
        }
    }

    /// A count as `u32`, saturating.
    pub fn as_u32(value: u64) -> (r: u32)
        ensures
            r == saturate_u32(value),
    {
        if value <= (u32::MAX as u64) {
            value as u32
        } else {
            u32::MAX
        }
    }

    /// Settings that older versions saved and that are no longer read.
    pub fn is_retired_setting_key(key: &str) -> (r: bool)
        ensures
            r == (key@ == "fast_expand"@ || key@ == "force_hide_overlay"@),
    {
        str_eq(key, "fast_expand") || str_eq(key, "force_hide_overlay")
    }
}

/// Sets an unset text setting to `default`.
fn fill_unset(slot: &mut Option<String>, default: &str)
    ensures
        opt_text(*final(slot)) == (if *old(slot) is None {
            Some(default@)
        } else {
            opt_text(*old(slot))
        }),
{
    if slot.is_none() {
        *slot = Some(String::from_str(default));
    }
}

/// The part of `s` before the first `c` (all of `s` when it holds none).
pub open spec fn before_first(s: Seq<char>, c: char) -> Seq<char>
    decreases s.len(),
{
    if s.len() == 0 || s[0] == c {
        Seq::empty()
    } else {
        seq![s[0]] + before_first(s.drop_first(), c)
    }
}

/// The player name that an account shortcut's file stem carries: the part before the first
/// `_`, when the stem holds both `_` and `@`.
pub open spec fn link_stem_name_spec(stem: Seq<char>) -> Option<Seq<char>> {
    if has_char(stem, '_') && has_char(stem, '@') {
        Some(before_first(stem, '_'))
    } else {
        None
    }
}

/// The names among `names` that are not empty.
pub open spec fn nonempty_names(names: Seq<Seq<char>>) -> Set<Seq<char>> {
    Set::new(|n: Seq<char>| n.len() > 0 && names.contains(n))
}

/// The user's own player names: the configured main names (as player keys) that are not
/// empty; when there are none, and an account folder is set, the names (as player keys)
/// carried by the account folder's shortcut files.
pub open spec fn configured_main_names_spec(
    v: AppSettingsView,
    main_keys: Seq<Seq<char>>,
    link_keys: Seq<Seq<char>>,
) -> Set<Seq<char>> {
    if exists|i: int| 0 <= i < main_keys.len() && (#[trigger] main_keys[i]).len() > 0 {
        nonempty_names(main_keys)
    } else if trim_seq(v.account_folder).len() == 0 {
        Set::empty()
    } else {
        nonempty_names(link_keys)
    }
}

/// The characters of `v` before the first `c`.
pub fn chars_before(v: &Vec<char>, c: char) -> (r: Vec<char>)
    ensures
        r@ == before_first(v@, c),
{
    let mut k: usize = 0;
    assert(v@.take(0) =~= Seq::<char>::empty());
    assert(v@.skip(0) =~= v@);
    while k < v.len() && v[k] != c
        invariant
            k <= v@.len(),
            before_first(v@, c) == v@.take(k as int) + before_first(v@.skip(k as int), c),
        decreases v@.len() - k,
    {
        proof {
            let t = v@.skip(k as int);
            assert(t.drop_first() =~= v@.skip(k + 1));
            assert(v@.take(k + 1) =~= v@.take(k as int) + seq![v@[k as int]]);
            assert(before_first(t, c) == seq![v@[k as int]] + before_first(v@.skip(k + 1), c));
            assert(v@.take(k as int) + (seq![v@[k as int]] + before_first(v@.skip(k + 1), c))
                =~= v@.take(k + 1) + before_first(v@.skip(k + 1), c));
        }
        k = k + 1;
    }
    proof {
        let t = v@.skip(k as int);
        if k < v@.len() {
            assert(t[0] == c);
        }
        assert(before_first(t, c) =~= Seq::<char>::empty());
        assert(v@.take(k as int) + Seq::<char>::empty() =~= v@.take(k as int));
    }
    copy_range(v, 0, k)
}

fn nonempty_name_set(names: &[String]) -> (r: TextSet)
    ensures
        r.wf(),
        r.set() == nonempty_names(texts(names@)),
{
    let mut r = TextSet::new();
    let ghost keys = texts(names@);
    for i in 0..names.len()
        invariant
            r.wf(),
            keys == texts(names@),
            r.set() == nonempty_names(keys.take(i as int)),
    {
        let ghost before = r.set();
        if !names[i].as_str().is_empty() {
            r.insert(names[i].clone());
        }
        proof {
            let now = nonempty_names(keys.take(i + 1));
            assert(keys.take(i + 1) =~= keys.take(i as int).push(keys[i as int]));
            assert forall|x: Seq<char>| #[trigger] r.set().contains(x) == now.contains(x) by {
                if now.contains(x) {
                    let j = choose|j: int| 0 <= j < i + 1 && #[trigger] keys.take(i + 1)[j] == x;
                    if j < i {
                        assert(keys.take(i as int)[j] == x);
                        assert(before.contains(x));
                    }
                }
                if before.contains(x) {
                    let j = choose|j: int| 0 <= j < i && #[trigger] keys.take(i as int)[j] == x;
                    assert(keys.take(i + 1)[j] == x);
                }
                if r.set().contains(x) && !before.contains(x) {
                    assert(keys.take(i + 1)[i as int] == x);
                }
            }
            assert(r.set() =~= now);
        }
    }
    assert(keys.take(names@.len() as int) =~= keys);
    r
}

impl AppSettings {
    /// Logical cores used for analysis.
    pub fn logical_core_count(available_cores: Option<usize>) -> (r: usize)
        ensures
            r == logical_cores(available_cores),
    {
        match available_cores {
            Some(n) => n,
            None => 1,
        }
    }

    pub fn default_analysis_worker_threads(available_cores: Option<usize>) -> (r: usize)
        ensures
            r == default_worker_threads(available_cores),
    {
        let half = Self::logical_core_count(available_cores) / 2;
        if half < 1 {
            1
        } else {
            half
        }
    }

    pub fn simple_analysis_worker_threads(available_cores: Option<usize>) -> (r: usize)
        ensures
            r == default_worker_threads(available_cores),
    {
        Self::default_analysis_worker_threads(available_cores)
    }

    pub fn clamp_analysis_worker_threads(value: usize, available_cores: Option<usize>) -> (r: usize)
        requires
            available_cores matches Some(n) ==> n >= 1,
        ensures
            r == clamped_worker_threads(value, available_cores),
    {
        let cores = Self::logical_core_count(available_cores);
        if value < 1 {
            1
        } else if value > cores {
            cores
        } else {
            value
        }
    }

    pub fn normalized_analysis_worker_threads(&self, available_cores: Option<usize>) -> (r: usize)
        requires
            available_cores matches Some(n) ==> n >= 1,
        ensures
            r == clamped_worker_threads(self@.analysis_worker_threads, available_cores),
    {
        Self::clamp_analysis_worker_threads(self.analysis_worker_threads, available_cores)
    }

    /// Sets the overlay hotkeys that have a built-in binding, where they are unset.
    pub fn initialize_unset_hotkeys(&mut self)
        requires
            old(self).wf(),
        ensures
            final(self).wf(),
            final(self)@ == with_default_hotkeys(old(self)@),
    {
        fill_unset(&mut self.hotkey_show_hide, "Ctrl+Shift+8");
        fill_unset(&mut self.hotkey_newer, "Ctrl+Alt+/");
        fill_unset(&mut self.hotkey_older, "Ctrl+Alt+8");
        fill_unset(&mut self.hotkey_winrates, "Ctrl+Alt+-");
    }

    /// Whether the saved settings file named `key`.
    pub fn has(&self, key: &str) -> (r: bool)
        requires
            self.wf(),
        ensures
            r == self@.present_keys.contains(key@),
    {
        self.present_keys.contains(key)
    }

    pub fn present_keys(&self) -> (r: &TextSet)
        requires
            self.wf(),
        ensures
            r.wf(),
            r.set() == self@.present_keys,
    {
        &self.present_keys
    }

    pub fn clear_present_keys(&mut self)
        requires
            old(self).wf(),
        ensures
            final(self).wf(),
            final(self)@ == (AppSettingsView { present_keys: Set::empty(), ..old(self)@ }),
    {
        self.present_keys.clear();
    }

    pub fn set_enable_logging(&mut self, value: bool)
        requires
            old(self).wf(),
        ensures
            final(self).wf(),
            final(self)@ == (AppSettingsView { enable_logging: value, ..old(self)@ }),
    {
        self.enable_logging = value;
    }

    pub fn with_enable_logging(self, value: bool) -> (r: Self)
        requires
            self.wf(),
        ensures
            r.wf(),
            r@ == (AppSettingsView { enable_logging: value, ..self@ }),
    {
        let mut s = self;
        s.set_enable_logging(value);
        s
    }

    pub fn set_detailed_analysis_atstart(&mut self, value: bool)
        requires
            old(self).wf(),
        ensures
            final(self).wf(),
            final(self)@ == (AppSettingsView { detailed_analysis_atstart: value, ..old(self)@ }),
    {
        self.detailed_analysis_atstart = value;
    }

    pub fn with_detailed_analysis_atstart(self, value: bool) -> (r: Self)
        requires
            self.wf(),
        ensures
            r.wf(),
            r@ == (AppSettingsView { detailed_analysis_atstart: value, ..self@ }),
    {
        let mut s = self;
        s.set_detailed_analysis_atstart(value);
        s
    }

    pub fn set_performance_geometry(&mut self, value: Option<[i32; 4]>)
        requires
            old(self).wf(),
        ensures
            final(self).wf(),
            final(self)@ == (AppSettingsView { performance_geometry: geom_view(value), ..old(self)@ }),
    {
        self.performance_geometry = value;
    }

    /// The keys of the player notes, in ascending order.
    pub closed spec fn note_keys(self) -> Seq<Seq<char>> {
        self.player_notes.keys_seq()
    }

    /// Player notes are kept by key, each once, in ascending key order: the ordered note keys
    /// are exactly the keys of the notes, each before all larger ones.
    pub proof fn law_note_keys_ascend(self)
        requires
            self.wf(),
        ensures
            forall|i: int| 0 <= i < self.note_keys().len() ==> self@.player_notes.contains_key(#[trigger] self.note_keys()[i]),
            forall|k: Seq<char>| self@.player_notes.contains_key(k) ==> self.note_keys().contains(k),
            forall|i: int, j: int| 0 <= i < j < self.note_keys().len() ==> crate::text::seq_lt(
                #[trigger] self.note_keys()[i],
                #[trigger] self.note_keys()[j],
            ),
    {
        self.player_notes.lemma_keys_seq();
    }

    /// The first note key, in key order, whose handle key is `handle_key`.
    fn note_key_with_handle(&self, handle_key: &String) -> (r: Option<String>)
        requires
            self.wf(),
        ensures
            opt_text(r) == first_key_with_handle(self.note_keys(), handle_key@),
    {
        let ghost keys = self.player_notes.keys_seq();
        let ghost nh = handle_key@;
        let n = self.player_notes.len();
        let mut found: Option<String> = None;
        let mut i: usize = 0;
        proof {
            self.player_notes.lemma_keys_seq();
            assert(keys.skip(0) =~= keys);
        }
        while i < n && found.is_none()
            invariant
                n == keys.len(),
                keys.len() == self.player_notes.count(),
                keys == self.player_notes.keys_seq(),
                self.player_notes.wf(),
                i <= n,
                nh == handle_key@,
                found is None ==> first_key_with_handle(keys, nh) == first_key_with_handle(keys.skip(i as int), nh),
                found matches Some(f) ==> first_key_with_handle(keys, nh) == Some(f@),
            decreases n - i, (if found is None { 1int } else { 0int }),
        {
            let k = self.player_notes.key_at(i);
            let kn = ReplayCacheStatsFactOps::normalized_handle_key(k.as_str());
            if str_eq(kn.as_str(), handle_key.as_str()) {
                let kc = k.clone();
                proof {
                    assert(keys.skip(i as int)[0] == keys[i as int]);
                    assert(kc@ == keys[i as int]);
                }
                found = Some(kc);
            } else {
                proof {
                    lemma_first_key_step(keys, nh, i as int);
                }
                i = i + 1;
            }
        }
        proof {
            if found is None {
                assert(keys.skip(n as int) =~= Seq::<Seq<char>>::empty());
            }
        }
        found
    }

    /// Saves a note on a player. The note is filed under the existing key with the same handle
    /// key (the first in key order), or else under the cleaned handle; a blank note removes it.
    pub fn update_player_note(&mut self, handle: &str, note_value: &str) -> (r: Result<(), String>)
        requires
            old(self).wf(),
        ensures
            final(self).wf(),
            normalized_handle_spec(handle@).len() == 0 ==> (r matches Err(e) && e@ == "Handle is empty"@)
                && final(self)@ == old(self)@,
            normalized_handle_spec(handle@).len() > 0 ==> r is Ok && final(self)@ == (AppSettingsView {
                player_notes: notes_after_update(
                    old(self)@.player_notes,
                    note_key_spec(old(self).note_keys(), handle@),
                    note_value@,
                ),
                ..old(self)@
            }),
    {
        let normalized = ReplayCacheStatsFactOps::normalized_handle_key(handle);
        if normalized.as_str().is_empty() {
            proof {
                reveal_strlit("Handle is empty");
            }
            return Err(String::from_str("Handle is empty"));
        }
        let found = self.note_key_with_handle(&normalized);
        let existing_key = match found {
            Some(k) => k,
            None => trim(sanitize_replay_text(handle).as_str()),
        };
        self.file_note(existing_key, note_value);
        Ok(())
    }

    /// Files `note_value` under `key`, or removes the note there when the text is blank.
    fn file_note(&mut self, key: String, note_value: &str)
        requires
            old(self).wf(),
        ensures
            final(self).wf(),
            final(self)@ == (AppSettingsView {
                player_notes: notes_after_update(old(self)@.player_notes, key@, note_value@),
                ..old(self)@
            }),
    {
        let ghost k = key@;
        let t = trimmed_chars(note_value);
        if t.len() == 0 {
            let _ = self.player_notes.remove(key.as_str());
            proof {
                assert(text_values(self.player_notes.map()) =~= text_values(old(self).player_notes.map()).remove(k));
            }
        } else {
            let _ = self.player_notes.insert(key, String::from_str(note_value));
            proof {
                assert(text_values(self.player_notes.map()) =~= text_values(old(self).player_notes.map()).insert(k, note_value@));
            }
        }
    }

    /// The note kept under exactly this handle, trimmed, unless blank.
    pub fn player_note(&self, player_handle: &str) -> (r: Option<String>)
        requires
            self.wf(),
        ensures
            opt_text(r) == player_note_spec(self@, player_handle@),
    {
        match self.player_notes.get(player_handle) {
            Some(value) => {
                let t = trim(value.as_str());
                if t.as_str().is_empty() {
                    None
                } else {
                    Some(t)
                }
            },
            None => None,
        }
    }

    /// The name that an account shortcut's file stem carries (see [`link_stem_name_spec`]).
    pub fn link_stem_main_name(stem: &str) -> (r: Option<String>)
        ensures
            match r {
                Some(n) => link_stem_name_spec(stem@) == Some(n@),
                None => link_stem_name_spec(stem@) is None,
            },
    {
        let v = chars_of(stem);
        if !has_char_exec(&v, '_') || !has_char_exec(&v, '@') {
            return None;
        }
        let name = chars_before(&v, '_');
        Some(string_from_chars(&name))
    }

    /// The user's own player names (see [`configured_main_names_spec`]). `main_keys` are the
    /// configured main names and `link_keys` the names that the account folder's shortcut
    /// files carry (see [`Self::link_stem_main_name`]), each turned into a player key by the
    /// caller.
    pub fn configured_main_names(&self, main_keys: &[String], link_keys: &[String]) -> (r: TextSet)
        ensures
            r.wf(),
            r.set() == configured_main_names_spec(self@, texts(main_keys@), texts(link_keys@)),
    {
        let mut any = false;
        for i in 0..main_keys.len()
            invariant
                any == exists|j: int| 0 <= j < i && (#[trigger] texts(main_keys@)[j]).len() > 0,
        {
            if !main_keys[i].as_str().is_empty() {
                any = true;
                assert(texts(main_keys@)[i as int].len() > 0);
            }
        }
        if any {
            return nonempty_name_set(main_keys);
        }
        let root = trimmed_chars(self.account_folder.as_str());
        if root.len() == 0 {
            return TextSet::new();
        }
        nonempty_name_set(link_keys)
    }

    /// The user's own handles: the handle keys of the account folder's sub-folder names (given
    /// by the caller, which lists the folder), or none when no account folder is set.
    pub fn configured_main_handles(&self, directory_names: &[String]) -> (r: TextSet)
        ensures
            r.wf(),
            trim_seq(self@.account_folder).len() == 0 ==> r.set() == Set::<Seq<char>>::empty(),
            trim_seq(self@.account_folder).len() > 0 ==> r.set() == Set::new(
                |h: Seq<char>|
                    h.len() > 0 && exists|i: int|
                        0 <= i < directory_names@.len() && h == normalized_handle_spec(
                            #[trigger] directory_names@[i]@,
                        ),
            ),
    {
        let mut r = TextSet::new();
        let root = trimmed_chars(self.account_folder.as_str());
        if root.len() == 0 {
            return r;
        }
        let ghost target = Set::new(
            |h: Seq<char>|
                h.len() > 0 && exists|i: int|
                    0 <= i < directory_names@.len() && h == normalized_handle_spec(
                        #[trigger] directory_names@[i]@,
                    ),
        );
        for i in 0..directory_names.len()
            invariant
                r.wf(),
                r.set() == Set::new(
                    |h: Seq<char>|
                        h.len() > 0 && exists|j: int|
                            0 <= j < i && h == normalized_handle_spec(#[trigger] directory_names@[j]@),
                ),
        {
            let ghost before = r.set();
            let h = ReplayCacheStatsFactOps::normalized_handle_key(directory_names[i].as_str());
            if !h.as_str().is_empty() {
                r.insert(h);
            }
            proof {
                let now = Set::new(
                    |x: Seq<char>|
                        x.len() > 0 && exists|j: int|
                            0 <= j < i + 1 && x == normalized_handle_spec(#[trigger] directory_names@[j]@),
                );
                assert forall|x: Seq<char>| #[trigger] r.set().contains(x) == now.contains(x) by {
                    if now.contains(x) {
                        let j = choose|j: int| 0 <= j < i + 1 && x == normalized_handle_spec(#[trigger] directory_names@[j]@);
                        if j < i {
                            assert(before.contains(x));
                        }
                    }
                    if before.contains(x) {
                        let j = choose|j: int| 0 <= j < i && x == normalized_handle_spec(#[trigger] directory_names@[j]@);
                        assert(now.contains(x));
                    }
                }
                assert(r.set() =~= now);
            }
        }
        assert(target =~= Set::new(
            |h: Seq<char>|
                h.len() > 0 && exists|j: int|
                    0 <= j < directory_names@.len() && h == normalized_handle_spec(#[trigger] directory_names@[j]@),
        ));
        r
    }

    /// Start-up flags: start minimized only when minimizing to the tray.
    pub fn runtime_flags(&self) -> (r: RuntimeFlags)
        ensures
            r.flags_view() == (self@.minimize_to_tray && self@.start_minimized, self@.minimize_to_tray, self@.auto_update),
    {
        let minimize_to_tray = self.minimize_to_tray;
        let start_minimized = if minimize_to_tray {
            self.start_minimized
        } else {
            false
        };
        RuntimeFlags::new(start_minimized, minimize_to_tray, self.auto_update)
    }
}

} // verus!

verus! {

/// The built-in binding that `entries` list for the hotkey setting `path` (the first match).
pub open spec fn hotkey_default_in(entries: Seq<(&'static str, &'static str)>, path: Seq<char>) -> Option<Seq<char>>
    decreases entries.len(),
{
    if entries.len() == 0 {
        None
    } else if entries[0].0@ == path {
        Some(entries[0].1@)
    } else {
        hotkey_default_in(entries.drop_first(), path)
    }
}

/// The built-in binding of the hotkey setting `path`, if it has one.
pub open spec fn hotkey_default_spec(path: Seq<char>) -> Option<Seq<char>> {
    hotkey_default_in(OVERLAY_HOTKEY_DEFAULTS@, path)
}

/// The shortcut requested by the `i`-th overlay hotkey binding.
pub open spec fn binding_request(v: AppSettingsView, i: int) -> Option<Seq<char>> {
    hotkey_request(
        setting_text(v, OVERLAY_HOTKEY_BINDINGS@[i].0@),
        hotkey_default_spec(OVERLAY_HOTKEY_BINDINGS@[i].0@),
    )
}

/// Path, action and shortcut of a hotkey candidate.
pub open spec fn candidate_view(c: HotkeyCandidate) -> (Seq<char>, Seq<char>, Seq<char>) {
    (c.path@, c.action@, c.shortcut@)
}

/// The candidates of the first `n` overlay hotkey bindings, in binding order: one for each
/// binding that requests a shortcut.
pub open spec fn hotkey_candidates_upto(v: AppSettingsView, n: int) -> Seq<(Seq<char>, Seq<char>, Seq<char>)>
    decreases n,
{
    if n <= 0 {
        Seq::empty()
    } else {
        let prev = hotkey_candidates_upto(v, n - 1);
        match binding_request(v, n - 1) {
            Some(s) => prev.push((OVERLAY_HOTKEY_BINDINGS@[n - 1].0@, OVERLAY_HOTKEY_BINDINGS@[n - 1].1@, s)),
            None => prev,
        }
    }
}

/// The candidates of all overlay hotkey bindings.
pub open spec fn hotkey_candidates_spec(v: AppSettingsView) -> Seq<(Seq<char>, Seq<char>, Seq<char>)> {
    hotkey_candidates_upto(v, 7)
}

/// Whether `idx` picks out, in increasing order, exactly those of the first `n` overlay
/// hotkey bindings that request a shortcut, and `c` lists the candidate of each of them, in
/// that order.
pub open spec fn candidates_follow_bindings(
    v: AppSettingsView,
    c: Seq<(Seq<char>, Seq<char>, Seq<char>)>,
    idx: Seq<int>,
    n: int,
) -> bool {
    &&& idx.len() == c.len()
    &&& forall|k: int|
        0 <= k < idx.len() ==> {
            let i = #[trigger] idx[k];
            &&& 0 <= i < n
            &&& binding_request(v, i) is Some
            &&& c[k] == (OVERLAY_HOTKEY_BINDINGS@[i].0@, OVERLAY_HOTKEY_BINDINGS@[i].1@, binding_request(v, i)->0)
        }
    &&& forall|k1: int, k2: int| 0 <= k1 < k2 < idx.len() ==> #[trigger] idx[k1] < #[trigger] idx[k2]
    &&& forall|i: int|
        0 <= i < n && (#[trigger] binding_request(v, i) is Some) ==> exists|k: int| 0 <= k < idx.len() && idx[k] == i
}

proof fn lemma_candidates_follow_upto(v: AppSettingsView, n: int) -> (idx: Seq<int>)
    requires
        0 <= n <= 7,
    ensures
        candidates_follow_bindings(v, hotkey_candidates_upto(v, n), idx, n),
    decreases n,
{
    if n == 0 {
        Seq::empty()
    } else {
        let prev = lemma_candidates_follow_upto(v, n - 1);
        let c0 = hotkey_candidates_upto(v, n - 1);
        match binding_request(v, n - 1) {
            Some(s) => {
                let idx = prev.push(n - 1);
                let c = hotkey_candidates_upto(v, n);
                assert(c == c0.push((OVERLAY_HOTKEY_BINDINGS@[n - 1].0@, OVERLAY_HOTKEY_BINDINGS@[n - 1].1@, s)));
                assert forall|k: int| 0 <= k < idx.len() implies {
                    let i = #[trigger] idx[k];
                    &&& 0 <= i < n
                    &&& binding_request(v, i) is Some
                    &&& c[k] == (OVERLAY_HOTKEY_BINDINGS@[i].0@, OVERLAY_HOTKEY_BINDINGS@[i].1@, binding_request(v, i)->0)
                } by {
                    if k < prev.len() {
                        assert(idx[k] == prev[k]);
                    }
                }
                assert forall|k1: int, k2: int| 0 <= k1 < k2 < idx.len() implies #[trigger] idx[k1] < #[trigger] idx[k2] by {
                    assert(idx[k1] == prev[k1]);
                    if k2 < prev.len() {
                        assert(idx[k2] == prev[k2]);
                    }
                }
                assert forall|i: int|
                    0 <= i < n && (#[trigger] binding_request(v, i) is Some) implies exists|k: int|
                        0 <= k < idx.len() && idx[k] == i by {
                    if i == n - 1 {
                        assert(idx[idx.len() - 1] == i);
                    } else {
                        let k = choose|k: int| 0 <= k < prev.len() && prev[k] == i;
                        assert(idx[k] == i);
                    }
                }
                idx
            },
            None => {
                assert forall|k: int| 0 <= k < prev.len() implies 0 <= #[trigger] prev[k] < n by {}
                prev
            },
        }
    }
}

proof fn lemma_binding_paths_distinct(i: int, j: int)
    requires
        0 <= i < 7,
        0 <= j < 7,
        i != j,
    ensures
        OVERLAY_HOTKEY_BINDINGS@[i].0@ != OVERLAY_HOTKEY_BINDINGS@[j].0@,
{
    reveal_strlit("hotkey_show/hide");
    reveal_strlit("hotkey_show");
    reveal_strlit("hotkey_hide");
    reveal_strlit("hotkey_newer");
    reveal_strlit("hotkey_older");
    reveal_strlit("hotkey_winrates");
    reveal_strlit("performance_hotkey");
    let a = OVERLAY_HOTKEY_BINDINGS@[i].0@;
    let b = OVERLAY_HOTKEY_BINDINGS@[j].0@;
    if a.len() == b.len() {
        assert(a[7] != b[7] || a[8] != b[8]);
    }
}

/// The overlay hotkey candidates follow the binding list: each is a binding's setting and
/// action with the shortcut that the binding requests, they keep the list's order and name
/// no setting twice, every binding that requests a shortcut has one, and a setting saved
/// as blank text has none.
pub proof fn law_hotkey_candidates_follow_bindings(v: AppSettingsView)
    ensures
        exists|idx: Seq<int>| candidates_follow_bindings(v, hotkey_candidates_spec(v), idx, 7),
        forall|k1: int, k2: int|
            0 <= k1 < k2 < hotkey_candidates_spec(v).len() ==> (#[trigger] hotkey_candidates_spec(v)[k1]).0
                != (#[trigger] hotkey_candidates_spec(v)[k2]).0,
        forall|i: int, k: int|
            0 <= i < 7 && 0 <= k < hotkey_candidates_spec(v).len() && (#[trigger] setting_text(
                v,
                OVERLAY_HOTKEY_BINDINGS@[i].0@,
            ) matches Some(raw) && trim_seq(raw).len() == 0) ==> (#[trigger] hotkey_candidates_spec(v)[k]).0
                != OVERLAY_HOTKEY_BINDINGS@[i].0@,
{
    let c = hotkey_candidates_spec(v);
    let idx = lemma_candidates_follow_upto(v, 7);
    assert(candidates_follow_bindings(v, c, idx, 7));
    assert forall|k1: int, k2: int| 0 <= k1 < k2 < c.len() implies (#[trigger] c[k1]).0 != (#[trigger] c[k2]).0 by {
        assert(idx[k1] < idx[k2]);
        lemma_binding_paths_distinct(idx[k1], idx[k2]);
    }
    assert forall|i: int, k: int|
        0 <= i < 7 && 0 <= k < c.len() && (#[trigger] setting_text(v, OVERLAY_HOTKEY_BINDINGS@[i].0@) matches Some(
            raw,
        ) && trim_seq(raw).len() == 0) implies (#[trigger] c[k]).0 != OVERLAY_HOTKEY_BINDINGS@[i].0@ by {
        let j = idx[k];
        if j != i {
            lemma_binding_paths_distinct(i, j);
        }
    }
}

/// The first binding in `bindings` for the setting `path`.
pub open spec fn first_binding_for(bindings: Seq<ResolvedHotkeyBinding>, path: Seq<char>) -> Option<int>
    decreases bindings.len(),
{
    if bindings.len() == 0 {
        None
    } else if bindings[0].path_view() == path {
        Some(0)
    } else {
        match first_binding_for(bindings.drop_first(), path) {
            Some(j) => Some(j + 1),
            None => None,
        }
    }
}

proof fn lemma_first_binding_bounds(bindings: Seq<ResolvedHotkeyBinding>, path: Seq<char>)
    ensures
        first_binding_for(bindings, path) matches Some(j) ==> 0 <= j < bindings.len()
            && bindings[j].path_view() == path,
    decreases bindings.len(),
{
    if bindings.len() > 0 {
        lemma_first_binding_bounds(bindings.drop_first(), path);
    }
}

/// The binding that a hotkey reassignment of `path` ends with: the resolved binding for that
/// setting; else, unless the saved settings switch that setting off, the fallback binding
/// when it is for that setting.
pub open spec fn reassign_end_spec(
    v: AppSettingsView,
    bindings: Seq<ResolvedHotkeyBinding>,
    path: Seq<char>,
    fallback: Option<ResolvedHotkeyBinding>,
) -> Option<(Seq<char>, Seq<char>, Seq<char>, Seq<char>)> {
    match first_binding_for(bindings, path) {
        Some(j) => Some(bindings[j].parts()),
        None => if v.present_keys.contains(path) && setting_disables(v, path) {
            None
        } else {
            match fallback {
                Some(b) => if b.path_view() == path {
                    Some(b.parts())
                } else {
                    None
                },
                None => None,
            }
        },
    }
}

/// The name of an overlay screenshot taken at `seconds` after the Unix epoch.
pub open spec fn screenshot_file_name(seconds: u64) -> Seq<char> {
    "overlay-"@ + decimal_seq(seconds as nat) + ".png"@
}

/// The performance window's saved place, when its size is not negative, enlarged as
/// [`PerformanceGeometry::normalized`] enlarges it.
pub open spec fn saved_geometry_spec(g: Option<Seq<i32>>, available_cores: Option<usize>) -> Option<
    PerformanceGeometryView,
> {
    match g {
        Some(a) => if a[2] >= 0 && a[3] >= 0 {
            Some(
                PerformanceGeometryView {
                    x: a[0],
                    y: a[1],
                    width: max_u32(a[2] as int, MIN_WINDOW_WIDTH as int) as u32,
                    height: max_u32(a[3] as int, required_window_height_spec(available_cores)) as u32,
                },
            )
        } else {
            None
        },
        None => None,
    }
}

/// The built-in binding of the hotkey setting `path`.
fn hotkey_default(path: &str) -> (r: Option<&'static str>)
    ensures
        match r {
            Some(d) => hotkey_default_spec(path@) == Some(d@),
            None => hotkey_default_spec(path@) is None,
        },
{
    let entries = OVERLAY_HOTKEY_DEFAULTS;
    let mut i: usize = 0;
    assert(entries@.skip(0) =~= entries@);
    while i < entries.len()
        invariant
            i <= entries@.len(),
            entries@ == OVERLAY_HOTKEY_DEFAULTS@,
            hotkey_default_spec(path@) == hotkey_default_in(entries@.skip(i as int), path@),
        decreases entries@.len() - i,
    {
        let (p, d) = entries[i];
        if str_eq(p, path) {
            return Some(d);
        }
        assert(entries@.skip(i as int).drop_first() =~= entries@.skip(i + 1));
        i = i + 1;
    }
    None
}

impl AppSettings {
    /// The overlay hotkey bindings that ask for a shortcut, with the shortcut in canonical
    /// form, in binding order. Whether the shortcut parser accepts it is decided afterwards.
    pub fn overlay_hotkey_candidates(&self) -> (r: Vec<HotkeyCandidate>)
        ensures
            r@.map_values(|c: HotkeyCandidate| candidate_view(c)) == hotkey_candidates_spec(self@),
    {
        let bindings = OVERLAY_HOTKEY_BINDINGS;
        let mut out: Vec<HotkeyCandidate> = Vec::new();
        for i in 0..7
            invariant
                bindings@ == OVERLAY_HOTKEY_BINDINGS@,
                out@.map_values(|c: HotkeyCandidate| candidate_view(c)) == hotkey_candidates_upto(self@, i as int),
        {
            let (path, action) = bindings[i];
            let request = match self.setting_text(path) {
                None => match hotkey_default(path) {
                    Some(d) => OverlayInfoOps::normalize_hotkey(d),
                    None => None,
                },
                Some(raw) => {
                    let t = trimmed_chars(raw);
                    if t.len() == 0 {
                        None
                    } else {
                        OverlayInfoOps::normalize_hotkey(raw)
                    }
                },
            };
            let ghost before = out@;
            match request {
                Some(s) => {
                    out.push(HotkeyCandidate { path, action, shortcut: s });
                    proof {
                        assert(out@.map_values(|c: HotkeyCandidate| candidate_view(c)) =~= before.map_values(
                            |c: HotkeyCandidate| candidate_view(c),
                        ).push(candidate_view(out@[i as int - i as int + before.len()])));
                    }
                },
                None => {},
            }
        }
        out
    }

    /// The binding a hotkey reassignment of `path` ends with, given the bindings that resolved.
    pub fn hotkey_binding_for_reassign_end(
        &self,
        bindings: &[ResolvedHotkeyBinding],
        path: &str,
        fallback_binding: Option<&ResolvedHotkeyBinding>,
    ) -> (r: Option<ResolvedHotkeyBinding>)
        requires
            self.wf(),
        ensures
            match r {
                Some(b) => reassign_end_spec(
                    self@,
                    bindings@,
                    path@,
                    match fallback_binding {
                        Some(f) => Some(*f),
                        None => None,
                    },
                ) == Some(b.parts()),
                None => reassign_end_spec(
                    self@,
                    bindings@,
                    path@,
                    match fallback_binding {
                        Some(f) => Some(*f),
                        None => None,
                    },
                ) is None,
            },
    {
        let mut i: usize = 0;
        assert(bindings@.skip(0) =~= bindings@);
        while i < bindings.len()
            invariant
                i <= bindings@.len(),
                forall|j: int| 0 <= j < i ==> (#[trigger] bindings@[j]).path_view() != path@,
            decreases bindings@.len() - i,
        {
            if str_eq(bindings[i].path(), path) {
                proof {
                    lemma_first_binding_prefix(bindings@, path@, i as int);
                }
                return Some(bindings[i].duplicate());
            }
            i = i + 1;
        }
        proof {
            lemma_first_binding_prefix(bindings@, path@, bindings@.len() as int);
        }
        if self.has(path) && self.setting_disables(path) {
            return None;
        }
        match fallback_binding {
            Some(b) => if str_eq(b.path(), path) {
                Some(b.duplicate())
            } else {
                None
            },
            None => None,
        }
    }

    /// Where an overlay screenshot taken at `captured_at_seconds` is saved: the configured
    /// folder (trimmed) and the file name in it. The time is the seconds since the Unix epoch,
    /// or the clock's error text when it reads before the epoch.
    pub fn overlay_screenshot_output_path(&self, captured_at_seconds: Result<u64, String>) -> (r: Result<
        (String, String),
        String,
    >)
        ensures
            trim_seq(self@.screenshot_folder).len() == 0 ==> (r matches Err(e) && e@
                == "Screenshot folder is not configured"@),
            trim_seq(self@.screenshot_folder).len() > 0 ==> match captured_at_seconds {
                Ok(s) => r matches Ok(p) && p.0@ == trim_seq(self@.screenshot_folder) && p.1@
                    == screenshot_file_name(s),
                Err(e) => r matches Err(m) && m@ == "Failed to build screenshot timestamp: "@ + e@,
            },
    {
        let folder = trim(self.screenshot_folder.as_str());
        if folder.as_str().is_empty() {
            proof {
                reveal_strlit("Screenshot folder is not configured");
            }
            return Err(String::from_str("Screenshot folder is not configured"));
        }
        match captured_at_seconds {
            Ok(seconds) => {
                let mut name = String::from_str("overlay-");
                name.append(decimal_string(seconds).as_str());
                name.append(".png");
                Ok((folder, name))
            },
            Err(e) => {
                let mut m = String::from_str("Failed to build screenshot timestamp: ");
                m.append(e.as_str());
                Err(m)
            },
        }
    }

    /// The trimmed text of a text setting, unless blank.
    fn overlay_setting_string(&self, key: &str) -> (r: Option<String>)
        ensures
            opt_text(r) == overlay_setting_spec(self@, key@),
    {
        match self.setting_text(key) {
            Some(t) => {
                let s = trim(t);
                if s.as_str().is_empty() {
                    None
                } else {
                    Some(s)
                }
            },
            None => None,
        }
    }

    /// The overlay's display time in seconds: at least one.
    pub fn overlay_duration(&self) -> (r: u32)
        ensures
            r == (if self@.duration < 1 {
                1
            } else {
                self@.duration
            }),
    {
        if self.duration < 1 {
            1
        } else {
            self.duration
        }
    }

    /// The language the overlay is shown in.
    pub fn overlay_language(&self) -> (r: &'static str)
        ensures
            r@ == overlay_language_spec(self@.language),
    {
        proof {
            reveal_strlit("ko");
            reveal_strlit("en");
        }
        if str_eq(self.language.as_str(), "ko") {
            "ko"
        } else {
            "en"
        }
    }

    /// The colours, timing, display switches, session tally and language sent to the overlay.
    pub fn overlay_runtime_settings_payload(&self, session_victories: u64, session_defeats: u64) -> (r:
        OverlayInitColorsDurationPayload)
        ensures
            opt_text(r.colors[0]) == overlay_setting_spec(self@, "color_player1"@),
            opt_text(r.colors[1]) == overlay_setting_spec(self@, "color_player2"@),
            opt_text(r.colors[2]) == overlay_setting_spec(self@, "color_amon"@),
            opt_text(r.colors[3]) == overlay_setting_spec(self@, "color_mastery"@),
            r.duration == (if self@.duration < 1 {
                1
            } else {
                self@.duration
            }),
            r.show_charts == self@.show_charts,
            r.show_session == self@.show_session,
            r.hide_nicknames_in_overlay == self@.hide_nicknames_in_overlay,
            r.session_victory == saturate_u32(session_victories),
            r.session_defeat == saturate_u32(session_defeats),
            r.language@ == overlay_language_spec(self@.language),
    {
        OverlayInitColorsDurationPayload {
            colors: [
                self.overlay_setting_string("color_player1"),
                self.overlay_setting_string("color_player2"),
                self.overlay_setting_string("color_amon"),
                self.overlay_setting_string("color_mastery"),
            ],
            duration: self.overlay_duration(),
            show_charts: self.show_charts,
            show_session: self.show_session,
            hide_nicknames_in_overlay: self.hide_nicknames_in_overlay,
            session_victory: AppSettingsOps::as_u32(session_victories),
            session_defeat: AppSettingsOps::as_u32(session_defeats),
            language: String::from_str(self.overlay_language()),
        }
    }

    pub fn performance_show_enabled(&self) -> (r: bool)
        ensures
            r == self@.performance_show,
    {
        self.performance_show
    }

    /// The process names the performance overlay watches.
    pub fn performance_process_names(&self) -> (r: Vec<String>)
        ensures
            texts(r@) == performance_names_spec(self@.performance_processes),
    {
        let ghost configured = texts(self.performance_processes@);
        let ghost trimmed = configured.map_values(|n: Seq<char>| trim_seq(n));
        let mut names: Vec<String> = Vec::new();
        let mut i: usize = 0;
        while i < self.performance_processes.len()
            invariant
                i <= self.performance_processes@.len(),
                configured == texts(self.performance_processes@),
                trimmed == configured.map_values(|n: Seq<char>| trim_seq(n)),
                texts(names@) == trimmed.take(i as int).filter(|n: Seq<char>| n.len() > 0),
            decreases self.performance_processes@.len() - i,
        {
            let t = trim(self.performance_processes[i].as_str());
            proof {
                assert(trimmed.take(i + 1) =~= trimmed.take(i as int).push(trimmed[i as int]));
                reveal(Seq::filter);
                assert(trimmed.take(i + 1).filter(|n: Seq<char>| n.len() > 0) == {
                    let p = trimmed.take(i as int).filter(|n: Seq<char>| n.len() > 0);
                    if trimmed[i as int].len() > 0 {
                        p.push(trimmed[i as int])
                    } else {
                        p
                    }
                }) by {
                    assert(trimmed.take(i + 1).drop_last() =~= trimmed.take(i as int));
                }
            }
            let ghost before = names@;
            if !t.as_str().is_empty() {
                names.push(t);
                proof {
                    assert(texts(names@) =~= texts(before).push(trimmed[i as int]));
                }
            }
            i = i + 1;
        }
        proof {
            assert(trimmed.take(i as int) =~= trimmed);
        }
        if names.len() == 0 {
            proof {
                reveal_strlit("SC2_x64.exe");
                reveal_strlit("SC2.exe");
            }
            let mut fallback: Vec<String> = Vec::new();
            fallback.push(String::from_str("SC2_x64.exe"));
            fallback.push(String::from_str("SC2.exe"));
            proof {
                assert(texts(fallback@) =~= seq!["SC2_x64.exe"@, "SC2.exe"@]);
            }
            fallback
        } else {
            names
        }
    }

    /// The performance window's saved place, when there is one with a non-negative size.
    pub fn saved_performance_geometry(&self, available_cores: Option<usize>) -> (r: Option<PerformanceGeometry>)
        ensures
            match r {
                Some(g) => saved_geometry_spec(self@.performance_geometry, available_cores) == Some(g@),
                None => saved_geometry_spec(self@.performance_geometry, available_cores) is None,
            },
    {
        match self.performance_geometry {
            Some(g) => {
                if g[2] < 0 || g[3] < 0 {
                    None
                } else {
                    let width: u32 = g[2] as u32;
                    let height: u32 = g[3] as u32;
                    Some(PerformanceGeometry::new(g[0], g[1], width, height).normalized(available_cores))
                }
            },
            None => None,
        }
    }
}

proof fn lemma_first_binding_prefix(bindings: Seq<ResolvedHotkeyBinding>, path: Seq<char>, i: int)
    requires
        0 <= i <= bindings.len(),
        forall|j: int| 0 <= j < i ==> (#[trigger] bindings[j]).path_view() != path,
    ensures
        i < bindings.len() && bindings[i].path_view() == path ==> first_binding_for(bindings, path) == Some(i),
        i == bindings.len() ==> first_binding_for(bindings, path) is None,
    decreases i,
{
    if i > 0 {
        assert forall|j: int| 0 <= j < i - 1 implies (#[trigger] bindings.drop_first()[j]).path_view() != path by {
            assert(bindings.drop_first()[j] == bindings[j + 1]);
        }
        lemma_first_binding_prefix(bindings.drop_first(), path, i - 1);
        if i < bindings.len() {
            assert(bindings.drop_first()[i - 1] == bindings[i]);
        }
    }
}

} // verus!

verus! {

/// The settings as plain values, as the settings file holds them (without the record of which
/// names the file held).
pub struct AppSettingsFields {
    pub start_with_windows: bool,
    pub minimize_to_tray: bool,
    pub start_minimized: bool,
    pub auto_update: bool,
    pub duration: u32,
    pub show_player_winrates: bool,
    pub show_replay_info_after_game: bool,
    pub show_session: bool,
    pub show_charts: bool,
    pub hide_nicknames_in_overlay: bool,
    pub account_folder: String,
    pub screenshot_folder: String,
    pub color_player1: String,
    pub color_player2: String,
    pub color_amon: String,
    pub color_mastery: String,
    pub hotkey_show_hide: Option<String>,
    pub hotkey_show: Option<String>,
    pub hotkey_hide: Option<String>,
    pub hotkey_newer: Option<String>,
    pub hotkey_older: Option<String>,
    pub hotkey_winrates: Option<String>,
    pub enable_logging: bool,
    pub dark_theme: bool,
    pub language: String,
    pub monitor: usize,
    pub performance_show: bool,
    pub performance_hotkey: Option<String>,
    pub performance_processes: Vec<String>,
    pub performance_geometry: Option<[i32; 4]>,
    pub rng_choices: Vec<(String, bool)>,
    pub player_notes: Vec<(String, String)>,
    pub main_names: Vec<String>,
    pub detailed_analysis_atstart: bool,
    pub analysis_worker_threads: usize,
}

/// The settings that `f` describes, with no saved names recorded.
pub open spec fn fields_view(f: AppSettingsFields) -> AppSettingsView {
    AppSettingsView {
        start_with_windows: f.start_with_windows,
        minimize_to_tray: f.minimize_to_tray,
        start_minimized: f.start_minimized,
        auto_update: f.auto_update,
        duration: f.duration,
        show_player_winrates: f.show_player_winrates,
        show_replay_info_after_game: f.show_replay_info_after_game,
        show_session: f.show_session,
        show_charts: f.show_charts,
        hide_nicknames_in_overlay: f.hide_nicknames_in_overlay,
        account_folder: f.account_folder@,
        screenshot_folder: f.screenshot_folder@,
        color_player1: f.color_player1@,
        color_player2: f.color_player2@,
        color_amon: f.color_amon@,
        color_mastery: f.color_mastery@,
        hotkey_show_hide: opt_text(f.hotkey_show_hide),
        hotkey_show: opt_text(f.hotkey_show),
        hotkey_hide: opt_text(f.hotkey_hide),
        hotkey_newer: opt_text(f.hotkey_newer),
        hotkey_older: opt_text(f.hotkey_older),
        hotkey_winrates: opt_text(f.hotkey_winrates),
        enable_logging: f.enable_logging,
        dark_theme: f.dark_theme,
        language: f.language@,
        monitor: f.monitor,
        performance_show: f.performance_show,
        performance_hotkey: opt_text(f.performance_hotkey),
        performance_processes: texts(f.performance_processes@),
        performance_geometry: geom_view(f.performance_geometry),
        rng_choices: pairs_map(pair_views(f.rng_choices@)),
        player_notes: text_values(pairs_map(pair_views(f.player_notes@))),
        main_names: texts(f.main_names@),
        detailed_analysis_atstart: f.detailed_analysis_atstart,
        analysis_worker_threads: f.analysis_worker_threads,
        present_keys: Set::empty(),
    }
}

/// The built-in settings, given the account folder and language found on this system.
pub open spec fn default_settings_spec(
    account_folder: Seq<char>,
    language: Seq<char>,
    available_cores: Option<usize>,
) -> AppSettingsView {
    with_default_hotkeys(
        AppSettingsView {
            start_with_windows: false,
            minimize_to_tray: true,
            start_minimized: false,
            auto_update: true,
            duration: 30,
            show_player_winrates: true,
            show_replay_info_after_game: true,
            show_session: true,
            show_charts: true,
            hide_nicknames_in_overlay: false,
            account_folder: account_folder,
            screenshot_folder: Seq::empty(),
            color_player1: "#0080F8"@,
            color_player2: "#00D532"@,
            color_amon: "#FF0000"@,
            color_mastery: "#FFDC87"@,
            hotkey_show_hide: None,
            hotkey_show: None,
            hotkey_hide: None,
            hotkey_newer: None,
            hotkey_older: None,
            hotkey_winrates: None,
            enable_logging: true,
            dark_theme: true,
            language: language,
            monitor: 1,
            performance_show: false,
            performance_hotkey: None,
            performance_processes: Seq::empty(),
            performance_geometry: None,
            rng_choices: Map::empty(),
            player_notes: Map::empty(),
            main_names: Seq::empty(),
            detailed_analysis_atstart: false,
            analysis_worker_threads: default_worker_threads(available_cores) as usize,
            present_keys: Set::empty(),
        },
    )
}

/// The setting names that a saved settings file held, without the retired ones.
pub open spec fn saved_names_spec(keys: Seq<Seq<char>>) -> Set<Seq<char>> {
    Set::new(
        |k: Seq<char>|
            exists|i: int|
                0 <= i < keys.len() && #[trigger] keys[i] == k && k != "fast_expand"@ && k
                    != "force_hide_overlay"@,
    )
}

/// The saved names without the retired ones.
fn retained_saved_names(saved_names: &[String]) -> (r: TextSet)
    ensures
        r.wf(),
        r.set() == saved_names_spec(texts(saved_names@)),
{
        let mut names = TextSet::new();
        let ghost keys = texts(saved_names@);
        for i in 0..saved_names.len()
            invariant
                names.wf(),
                keys == texts(saved_names@),
                names.set() == Set::new(
                    |k: Seq<char>|
                        exists|j: int|
                            0 <= j < i && #[trigger] keys[j] == k && k != "fast_expand"@ && k
                                != "force_hide_overlay"@,
                ),
        {
            let ghost before = names.set();
            if !AppSettingsOps::is_retired_setting_key(saved_names[i].as_str()) {
                names.insert(saved_names[i].clone());
            }
            proof {
                let now = Set::new(
                    |k: Seq<char>|
                        exists|j: int|
                            0 <= j < i + 1 && #[trigger] keys[j] == k && k != "fast_expand"@ && k
                                != "force_hide_overlay"@,
                );
                assert forall|k: Seq<char>| #[trigger] names.set().contains(k) == now.contains(k) by {
                    if now.contains(k) {
                        let j = choose|j: int|
                            0 <= j < i + 1 && #[trigger] keys[j] == k && k != "fast_expand"@ && k
                                != "force_hide_overlay"@;
                        if j < i {
                            assert(before.contains(k));
                        } else {
                            assert(keys[i as int] == saved_names@[i as int]@);
                        }
                    }
                    if before.contains(k) {
                        let j = choose|j: int|
                            0 <= j < i && #[trigger] keys[j] == k && k != "fast_expand"@ && k
                                != "force_hide_overlay"@;
                        assert(now.contains(k));
                    }
                    if names.set().contains(k) && !before.contains(k) {
                        assert(keys[i as int] == k);
                        assert(now.contains(k));
                    }
                }
                assert(names.set() =~= now);
            }
        }
    proof {
        assert(names.set() =~= saved_names_spec(keys));
    }
    names
}

/// Settings as they are finished after a read: unset overlay hotkeys get their built-in
/// binding, the worker count is held between 1 and the logical cores, and the saved names,
/// without retired ones, are recorded.
#[verifier::inline]
pub open spec fn merged_settings_view(v: AppSettingsView, saved_names: Seq<Seq<char>>, available_cores: Option<usize>) -> AppSettingsView {
    AppSettingsView {
        analysis_worker_threads: clamped_worker_threads(
            with_default_hotkeys(v).analysis_worker_threads,
            available_cores,
        ) as usize,
        present_keys: saved_names_spec(saved_names),
        ..with_default_hotkeys(v)
    }
}

/// Settings written and read back are the settings that were written: finishing finished
/// settings again, with the same saved names, changes nothing.
pub proof fn law_finished_settings_read_back(v: AppSettingsView, saved_names: Seq<Seq<char>>, available_cores: Option<usize>)
    requires
        available_cores matches Some(n) ==> n >= 1,
    ensures
        merged_settings_view(merged_settings_view(v, saved_names, available_cores), saved_names, available_cores)
            == merged_settings_view(v, saved_names, available_cores),
{
    law_clamped_workers_in_range(with_default_hotkeys(v).analysis_worker_threads, available_cores);
}

/// Finishing read settings records as present exactly the saved names that are not retired,
/// gives every overlay hotkey with a built-in binding a value (keeping a set one), holds the
/// worker count between 1 and the logical cores, and keeps every other setting as it was
/// read (or as the defaults have it, when nothing could be read).
pub proof fn law_merged_settings(v: AppSettingsView, saved_names: Seq<Seq<char>>, available_cores: Option<usize>)
    requires
        available_cores matches Some(n) ==> n >= 1,
    ensures
        ({
            let m = merged_settings_view(v, saved_names, available_cores);
            &&& forall|k: Seq<char>|
                #[trigger] m.present_keys.contains(k) == (saved_names.contains(k) && k != "fast_expand"@ && k
                    != "force_hide_overlay"@)
            &&& m.hotkey_show_hide is Some && m.hotkey_newer is Some && m.hotkey_older is Some
                && m.hotkey_winrates is Some
            &&& v.hotkey_show_hide is Some ==> m.hotkey_show_hide == v.hotkey_show_hide
            &&& v.hotkey_newer is Some ==> m.hotkey_newer == v.hotkey_newer
            &&& v.hotkey_older is Some ==> m.hotkey_older == v.hotkey_older
            &&& v.hotkey_winrates is Some ==> m.hotkey_winrates == v.hotkey_winrates
            &&& 1 <= m.analysis_worker_threads <= logical_cores(available_cores)
            &&& m == AppSettingsView {
                hotkey_show_hide: m.hotkey_show_hide,
                hotkey_newer: m.hotkey_newer,
                hotkey_older: m.hotkey_older,
                hotkey_winrates: m.hotkey_winrates,
                analysis_worker_threads: m.analysis_worker_threads,
                present_keys: m.present_keys,
                ..v
            }
        }),
{
    law_clamped_workers_in_range(with_default_hotkeys(v).analysis_worker_threads, available_cores);
    let m = merged_settings_view(v, saved_names, available_cores);
    assert forall|k: Seq<char>|
        #[trigger] m.present_keys.contains(k) == (saved_names.contains(k) && k != "fast_expand"@ && k
            != "force_hide_overlay"@) by {
        if saved_names.contains(k) {
            let i = choose|i: int| 0 <= i < saved_names.len() && saved_names[i] == k;
            assert(saved_names[i] == k);
        }
    }
}

/// The system locale, as `sys_locale::get_locale` reads it. It depends on the machine; nothing
/// is promised of it.
#[verifier::external_body]
fn system_locale() -> (r: Option<String>) {
    sys_locale::get_locale()
}

impl AppSettingsOps {
    /// The system language (see [`language_from_locale_spec`]) of the system locale.
    pub fn get_system_language() -> (r: String)
        ensures
            exists|locale: Option<Seq<char>>| r@ == #[trigger] language_from_locale_spec(locale),
    {
        let locale = system_locale();
        let r = match &locale {
            Some(l) => Self::language_from_locale(Some(l.as_str())),
            None => Self::language_from_locale(None),
        };
        proof {
            let w: Option<Seq<char>> = match locale {
                Some(l) => Some(l@),
                None => None,
            };
            assert(r@ == language_from_locale_spec(w));
        }
        r
    }
}

impl AppSettings {
    /// The settings that `fields` describe, with no saved names recorded.
    pub fn from_fields(fields: AppSettingsFields) -> (r: AppSettings)
        ensures
            r.wf(),
            r@ == fields_view(fields),
    {
        let ghost f = fields;
        let r = AppSettings {
            start_with_windows: fields.start_with_windows,
            minimize_to_tray: fields.minimize_to_tray,
            start_minimized: fields.start_minimized,
            auto_update: fields.auto_update,
            duration: fields.duration,
            show_player_winrates: fields.show_player_winrates,
            show_replay_info_after_game: fields.show_replay_info_after_game,
            show_session: fields.show_session,
            show_charts: fields.show_charts,
            hide_nicknames_in_overlay: fields.hide_nicknames_in_overlay,
            account_folder: fields.account_folder,
            screenshot_folder: fields.screenshot_folder,
            color_player1: fields.color_player1,
            color_player2: fields.color_player2,
            color_amon: fields.color_amon,
            color_mastery: fields.color_mastery,
            hotkey_show_hide: fields.hotkey_show_hide,
            hotkey_show: fields.hotkey_show,
            hotkey_hide: fields.hotkey_hide,
            hotkey_newer: fields.hotkey_newer,
            hotkey_older: fields.hotkey_older,
            hotkey_winrates: fields.hotkey_winrates,
            enable_logging: fields.enable_logging,
            dark_theme: fields.dark_theme,
            language: fields.language,
            monitor: fields.monitor,
            performance_show: fields.performance_show,
            performance_hotkey: fields.performance_hotkey,
            performance_processes: fields.performance_processes,
            performance_geometry: fields.performance_geometry,
            rng_choices: TextMap::from_pairs(fields.rng_choices),
            player_notes: TextMap::from_pairs(fields.player_notes),
            main_names: fields.main_names,
            detailed_analysis_atstart: fields.detailed_analysis_atstart,
            analysis_worker_threads: fields.analysis_worker_threads,
            present_keys: TextSet::new(),
        };
        r
    }

    /// The built-in settings, given the account folder and language found on this system and
    /// the logical cores it reports.
    pub fn default_with(account_folder: String, language: String, available_cores: Option<usize>) -> (r:
        AppSettings)
        ensures
            r.wf(),
            r@ == default_settings_spec(account_folder@, language@, available_cores),
    {
        proof {
            reveal_strlit("#0080F8");
            reveal_strlit("#00D532");
            reveal_strlit("#FF0000");
            reveal_strlit("#FFDC87");
        }
        let threads = Self::default_analysis_worker_threads(available_cores);
        let mut settings = AppSettings {
            start_with_windows: false,
            minimize_to_tray: true,
            start_minimized: false,
            auto_update: true,
            duration: 30,
            show_player_winrates: true,
            show_replay_info_after_game: true,
            show_session: true,
            show_charts: true,
            hide_nicknames_in_overlay: false,
            account_folder,
            screenshot_folder: String::new(),
            color_player1: String::from_str("#0080F8"),
            color_player2: String::from_str("#00D532"),
            color_amon: String::from_str("#FF0000"),
            color_mastery: String::from_str("#FFDC87"),
            hotkey_show_hide: None,
            hotkey_show: None,
            hotkey_hide: None,
            hotkey_newer: None,
            hotkey_older: None,
            hotkey_winrates: None,
            enable_logging: true,
            dark_theme: true,
            language,
            monitor: 1,
            performance_show: false,
            performance_hotkey: None,
            performance_processes: Vec::new(),
            performance_geometry: None,
            rng_choices: TextMap::new(),
            player_notes: TextMap::new(),
            main_names: Vec::new(),
            detailed_analysis_atstart: false,
            analysis_worker_threads: threads,
            present_keys: TextSet::new(),
        };
        proof {
            assert(texts(settings.performance_processes@) =~= Seq::<Seq<char>>::empty());
            assert(texts(settings.main_names@) =~= Seq::<Seq<char>>::empty());
            assert(text_values(settings.player_notes.map()) =~= Map::<Seq<char>, Seq<char>>::empty());
        }
        settings.initialize_unset_hotkeys();
        settings
    }

    /// Finishes settings read from a saved file: `loaded` is what the file gave (or nothing
    /// when it could not be read as settings, and then `defaults` stand), `saved_names` the
    /// names the file held. Unset overlay hotkeys get their built-in binding, the worker count
    /// is held between 1 and the logical cores, and the saved names, without retired ones,
    /// are recorded.
    pub fn merge_settings_with_defaults(
        loaded: Option<AppSettings>,
        defaults: AppSettings,
        saved_names: &[String],
        available_cores: Option<usize>,
    ) -> (r: AppSettings)
        requires
            loaded matches Some(l) ==> l.wf(),
            defaults.wf(),
            available_cores matches Some(n) ==> n >= 1,
        ensures
            r.wf(),
            r@ == merged_settings_view(
                match loaded {
                    Some(l) => l@,
                    None => defaults@,
                },
                texts(saved_names@),
                available_cores,
            ),
    {
        let mut settings = match loaded {
            Some(l) => l,
            None => defaults,
        };
        settings.initialize_unset_hotkeys();
        settings.analysis_worker_threads = Self::clamp_analysis_worker_threads(
            settings.analysis_worker_threads,
            available_cores,
        );
        settings.present_keys = retained_saved_names(saved_names);
        settings
    }
}

} // verus!
