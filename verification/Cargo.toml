[package]
name = "pong_session"
version = "0.1.0"
edition = "2021"
publish = false

[dependencies]
anyhow = "1"
bytes = "1"
crossterm = "*"
futures = "0.3"
futures-util = "0.3"
native-tls = "0.2"
ratatui = "*"
reqwest = { version = "*", features = ["json"] }
serde_json = "1"
tokio = { version = "1", features = ["full"] }
tokio-tungstenite = { version = "*", features = ["native-tls"] }
