[package]
name = "trivia_party_display"
version = "0.1.0"
edition = "2021"
publish = false

[package.metadata.unbuilt]
crates = ["tauri", "tauri-plugin-log", "tauri-plugin-process", "tauri-plugin-updater"]

[dependencies]
serde = { version = "1", features = ["derive"] }
log = "0.4"
