[package]
name = "pomock"
version = "0.1.0"
edition = "2021"
publish = false

[dependencies]
crossterm = "*"
directories = "*"
notify-rust = "*"
ratatui = "*"
rodio = "*"
serde = { version = "*", features = ["derive"] }
tempfile = "*"
toml = "*"
