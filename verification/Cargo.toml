[package]
name = "pomodorotimer"
version = "0.1.0"
edition = "2021"
publish = false

[dependencies]
chrono = "0.4"
diesel = { version = "2", features = ["sqlite", "chrono"] }
diesel_migrations = "2"
dotenvy = "0.15"
libsqlite3-sys = { version = "*", features = ["bundled"] }
notify-rust = "4"
ratatui = "0.29"
tui-input = { version = "*", default-features = false }
