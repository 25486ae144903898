use vstd::prelude::*;

use crate::path_manager::{is_prod_spec, PathManagerOps};
use crate::text::str_eq;

verus! {

/// A replay limit that stands for no limit.
pub const UNLIMITED_REPLAY_LIMIT: usize = 0;

/// How long the "game starting" display stays, in seconds.
pub const SC2_GAME_STARTING_DISPLAY_SECONDS: u64 = 12;

/// The settings that the overlay window reads at run time.
pub const OVERLAY_RUNTIME_SETTING_KEYS: [&'static str; 9] = [
    "color_player1",
    "color_player2",
    "color_amon",
    "color_mastery",
    "duration",
    "show_session",
    "show_charts",
    "hide_nicknames_in_overlay",
    "language",
];

/// The settings that hold overlay hotkeys.
pub const OVERLAY_HOTKEY_SETTING_KEYS: [&'static str; 7] = [
    "hotkey_show/hide",
    "hotkey_show",
    "hotkey_hide",
    "hotkey_newer",
    "hotkey_older",
    "hotkey_winrates",
    "performance_hotkey",
];

/// The settings that place the overlay window.
pub const OVERLAY_PLACEMENT_SETTING_KEYS: [&'static str; 1] = ["monitor"];

/// The settings that the performance overlay reads at run time.
pub const PERFORMANCE_RUNTIME_SETTING_KEYS: [&'static str; 4] = [
    "performance_show",
    "performance_geometry",
    "performance_processes",
    "monitor",
];

/// The name this package registers itself under to start with the system.
pub const AUTOSTART_REGISTRATION_NAME: &'static str = "tauri_overlay";

/// The name earlier versions registered under on Windows.
pub const LEGACY_WINDOWS_STARTUP_REGISTRATION_NAME: &'static str = "SCO Overlay";

/// Operations of the overlay app that stand on their own.
pub struct TauriOverlayOps;

/// The app itself; its event loop runs outside this library.
pub struct TauriOverlayApp;

impl TauriOverlayOps {
    pub fn autostart_registration_name() -> (r: &'static str)
        ensures
            r@ == AUTOSTART_REGISTRATION_NAME@,
    {
        AUTOSTART_REGISTRATION_NAME
    }

    pub fn legacy_windows_startup_registration_name() -> (r: &'static str)
        ensures
            r@ == LEGACY_WINDOWS_STARTUP_REGISTRATION_NAME@,
    {
        LEGACY_WINDOWS_STARTUP_REGISTRATION_NAME
    }

    /// Whether the Windows start-up entry of earlier versions is to be removed: it is when the
    /// app now registers under another name.
    pub fn should_remove_legacy_windows_startup_registration() -> (r: bool)
        ensures
            r == (AUTOSTART_REGISTRATION_NAME@ != LEGACY_WINDOWS_STARTUP_REGISTRATION_NAME@),
    {
        !str_eq(Self::autostart_registration_name(), Self::legacy_windows_startup_registration_name())
    }
}

/// Requests that the front end makes of the system.
pub struct SystemCommands;

impl SystemCommands {
    /// Whether this is a development build.
    pub fn is_dev(runtime_mode: Option<&str>, framework_dev: bool) -> (r: bool)
        ensures
            r == !is_prod_spec(
                match runtime_mode {
                    Some(m) => Some(m@),
                    None => None,
                },
                framework_dev,
            ),
    {
        PathManagerOps::is_dev_env(runtime_mode, framework_dev)
    }
}

} // verus!
