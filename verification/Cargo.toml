[package]
name = "display_settings"
version = "0.1.0"
edition = "2021"
publish = false

[dependencies]
winapi = { version = "0.3", features = ["wingdi", "winuser", "windef", "minwindef"] }
