[package]
name = "terminal_screensaver"
version = "0.1.0"
edition = "2021"
publish = false

[dependencies]
rand = "*"
chrono = "*"
clap = "*"
crossterm = "*"
log = "*"
ratatui = "*"
serde = { version = "*", features = ["derive"] }
simplelog = "*"
toml = "*"
