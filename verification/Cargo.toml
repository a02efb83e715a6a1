[package]
name = "tui_bridge"
version = "0.1.0"
edition = "2021"
publish = false

[dependencies]
tokio = { version = "*", features = ["sync", "rt"] }
ratatui = "*"
russh = "*"
anyhow = "*"
