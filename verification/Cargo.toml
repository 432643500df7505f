[package]
name = "local_assets"
version = "0.1.0"
edition = "2021"
publish = false

[dependencies]
include_dir = "0.7"
mime_guess = "2"
serde_json = "1"
tauri = { version = "2", default-features = false }
