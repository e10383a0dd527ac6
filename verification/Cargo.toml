[package]
name = "tui_lab"
version = "0.1.0"
edition = "2021"
publish = false

[dependencies]
chrono = { version = "0.4", default-features = false, features = ["clock", "std"] }
unicode-width = "0.2"
crossterm = "0.28"
ratatui = "0.29"
color-eyre = "0.6"
