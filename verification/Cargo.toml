[package]
name = "nhl_tui"
version = "0.1.0"
edition = "2021"
publish = false

[dependencies]
unicode-width = "*"
chrono = "*"
ratatui = "*"
crossterm = "*"
nhl_api = "*"
