[package]
name = "tui_studio"
version = "0.1.0"
edition = "2021"
publish = false

[dependencies]
arboard = { version = "3", default-features = false }
unicode-width = "0.2"
regex = "1"
crossterm = "0.28"
serde = { version = "1", features = ["derive"] }
serde_json = "1"
thiserror = "2"
anyhow = "1"
chrono = "0.4"
clap = { version = "4", features = ["derive"] }
