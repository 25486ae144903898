use vstd::prelude::*;

pub mod text;
pub mod text_map;
pub mod shared_types;
pub mod query_types;
pub mod db_core;
pub mod overlay_info;
pub mod monitor_settings;
pub mod performance_overlay;
pub mod app_settings;
pub mod game_launch_detector;
pub mod logging;
pub mod active_window;
pub mod command_payloads;
pub mod path_manager;
pub mod tauri_overlay_ops;
pub mod config_commands;
pub mod player_info;
pub mod stats_filters;
pub mod array_json;
pub mod cache_writer;
pub mod games_page;
pub mod backend_ops;
pub mod db_columns;
pub mod cache_saving;
pub mod replay_roots;
pub mod startup_registration;
pub mod hotkey_canonical;
pub mod screenshot;
pub mod overlay_actions;
pub mod stats_snapshot;

verus! {
} // verus!
