[package]
name = "desktop_toolkit"
version = "0.1.0"
edition = "2021"
publish = false

[dependencies]
semver = "1"
serde = { version = "1", features = ["derive"] }
serde_json = "1"
tauri = { version = "2", default-features = false, features = ["wry"] }
