[package]
name = "yana"
version = "0.1.0"
edition = "2021"
publish = false

[dependencies]
crossterm = "0.28"
pulldown-cmark = { version = "0.12", default-features = false }
ratatui = "0.29"
serde = { version = "1", features = ["derive"] }
serde_json = "1"
