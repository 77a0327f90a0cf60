[package]
name = "ferrosonic"
version = "0.1.0"
edition = "2021"
publish = false

[dependencies]
rand = "0.8"
serde = { version = "1", features = ["derive"] }
crossterm = "0.28"
ratatui = "0.29"
notify-rust = "4"
tracing = "0.1"
