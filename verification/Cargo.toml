[package]
name = "redox_console"
version = "0.1.0"
edition = "2021"
publish = false

[dependencies]
rand = "0.8"
chrono = "0.4"
crossterm = "0.25"
tui = "0.19"
serde = { version = "1", features = ["derive"] }
