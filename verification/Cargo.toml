[package]
name = "pomodoro_tui"
version = "0.1.0"
edition = "2021"
publish = false

[dependencies]
crossterm = "0.28"
dirs = "5"
discord-rich-presence = "0.2"
ratatui = "0.29"
rodio = { version = "0.20", default-features = false, features = ["mp3"] }
