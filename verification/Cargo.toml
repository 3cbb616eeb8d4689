[package]
name = "mcp_session"
version = "0.1.0"
edition = "2021"
publish = false

[dependencies]
anyhow = "=1.0.104"
futures = "=0.3.34"
oauth2 = { version = "=5.0.0", default-features = false }
ratatui = { version = "=0.29.0", default-features = false, features = ["underline-color"] }
serde = { version = "=1.0.229", features = ["derive"] }
serde_json = "=1.0.154"
tokio = { version = "=1.54.1", features = ["macros", "net", "rt", "sync", "time"] }
tokio-tungstenite = { version = "=0.24.0", default-features = false, features = ["handshake"] }
tokio-util = "=0.7.20"
tracing = "=0.1.44"
