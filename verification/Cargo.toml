[package]
name = "tauri_overlay"
version = "0.1.0"
edition = "2021"
publish = false

[dependencies]
serde = { version = "1", features = ["derive"] }
serde_json = "1"
log = "0.4"
chrono = "0.4"
sys-locale = "0.3"
pretty_env_logger = "0.5"
rusqlite = { version = "*", features = ["bundled"] }
