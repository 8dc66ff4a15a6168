[package]
name = "pinote"
version = "0.1.0"
edition = "2021"
publish = false

[dependencies]
serde_json = "1"
global-hotkey = "*"
tauri = { version = "2", default-features = false }
tauri-plugin-global-shortcut = "2"
