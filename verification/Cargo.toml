[package]
name = "capptivo"
version = "0.1.0"
edition = "2021"
publish = false

[dependencies]
chrono = "0.4"
serde_json = "1"
tauri = { version = "2", default-features = false }
tauri-plugin-global-shortcut = "2"
tracing = "0.1"
tracing-subscriber = { version = "0.3", features = ["env-filter"] }
