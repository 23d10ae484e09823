[package]
name = "syneroym"
version = "0.1.0"
edition = "2021"
publish = false

[dependencies]
tls-parser = "=0.12.2"
serde_json = "=1.0.154"
uuid = { version = "=1.29.0", features = ["v4"] }
axum = { version = "=0.8.9", features = ["ws"] }
anyhow = "=1.0.104"
askama = "=0.16.1"
async-trait = "=0.1.92"
bytes = "=1.12.1"
clap = { version = "=4.6.7", features = ["derive"] }
figment = { version = "=0.10.19", features = ["toml", "env"] }
futures = "=0.3.34"
http-body-util = "=0.1.5"
rusqlite = { version = "=0.41.0", features = ["bundled"] }
serde = { version = "=1.0.229", features = ["derive"] }
tokio = { version = "=1.54.1", features = ["full"] }
tokio-tungstenite = "=0.30.0"
tokio-util = { version = "=0.7.20", features = ["io"] }
tracing = "=0.1.44"
webrtc = "=0.17.2"
