[package]
name = "text_input"
version = "0.1.0"
edition = "2021"
publish = false

[dependencies]
unicode-width = "0.1"
crossterm = "0.27"
ratatui = "0.23"
tokio = { version = "1", features = ["sync"] }
