[package]
name = "octos_tui"
version = "0.1.0"
edition = "2021"
publish = false

[dependencies]
unicode-width = "=0.2.0"
shlex = "=1.3.0"
serde = { version = "=1.0.229", features = ["derive"] }
serde_json = "=1.0.154"
ratatui = "=0.29.0"
crossterm = "=0.28.1"
tokio = { version = "1", features = ["rt-multi-thread", "macros", "process", "io-util", "sync"] }
tokio-tungstenite = "0.26"
futures = "0.3"
eyre = "0.6"
