[package]
name = "roth_pomodoro"
version = "0.1.0"
edition = "2021"
publish = false

[dependencies]
rodio = { version = "0.20", default-features = false }
rusqlite = { version = "*", features = ["bundled"] }
