[package]
name = "sinkercli"
version = "0.1.0"
edition = "2021"
publish = false

[dependencies]
anyhow = "1"
crossterm = "0.28"
dirs = "5"
libpulse-binding = "2"
ratatui = "0.29"
serde = { version = "1", features = ["derive"] }
toml = "0.8"
