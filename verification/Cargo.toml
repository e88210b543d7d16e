[package]
name = "chess_core"
version = "0.1.0"
edition = "2021"
publish = false

[dependencies]
serde = { version = "1", features = ["derive"] }
serde_json = "1"
strum = "0.26"
strum_macros = "0.26"
ratatui = "0.29"
crossterm = "0.28"
tokio = { version = "1", features = ["full"] }
color-eyre = "0.6"
