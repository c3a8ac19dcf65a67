[package]
name = "christ"
version = "0.1.0"
edition = "2021"
publish = false

[dependencies]
unicode-width = "*"
ratatui = "*"
serde = { version = "1", features = ["derive"] }
serde_json = "1"
once_cell = "1"
