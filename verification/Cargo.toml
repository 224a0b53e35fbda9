[package]
name = "tmmpr"
version = "0.1.0"
edition = "2021"
publish = false

[dependencies]
unicode-width = "0.2"
unicode-segmentation = "1"
ratatui = "0.29"
crossterm = "0.28"
color-eyre = "0.6"
serde = { version = "1", features = ["derive"] }
serde_json = "1"
home = "0.5"
tempfile = "3"
chrono = { version = "0.4", features = ["serde"] }
