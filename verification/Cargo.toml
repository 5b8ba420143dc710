[package]
name = "tui_apps"
version = "0.1.0"
edition = "2021"
publish = false

[dependencies]
crossterm = "0.28"
ratatui = "0.29"
serde_json = { version = "1", features = ["preserve_order"] }
