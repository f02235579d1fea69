[package]
name = "altre"
version = "0.1.0"
edition = "2021"
publish = false

[dependencies]
thiserror = "1"
serde = { version = "1", features = ["derive"] }
serde_json = "1"
crossterm = "*"
ratatui = "*"
dirs = "*"
shellexpand = "*"
