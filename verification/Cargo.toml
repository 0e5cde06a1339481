[package]
name = "ghostview"
version = "0.1.0"
edition = "2021"
publish = false

[dependencies]
bytes = "=1.12.1"
futures-util = "0.3"
serde = { version = "=1.0.229", features = ["derive"] }
serde_json = "=1.0.154"
tokio = { version = "=1.54.1", features = ["full"] }
tokio-tungstenite = "=0.21.0"
tracing = "0.1"
tracing-subscriber = { version = "0.3", features = ["env-filter"] }
vpx-encode = "=0.6.2"
webrtc = "=0.11.0"
windows-capture = "=1.4.4"
