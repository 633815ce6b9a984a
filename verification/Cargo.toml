[package]
name = "archinstall-rs"
version = "0.1.0"
edition = "2021"
publish = false

[dependencies]
ratatui = "*"
serde_json = "*"
chrono = "*"
