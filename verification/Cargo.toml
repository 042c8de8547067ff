[package]
name = "realtime"
version = "0.1.0"
edition = "2021"
publish = false

[dependencies]
axum = "0.6"
bytes = "1"
futures = "0.3"
futures-util = "0.3"
pin-project-lite = "0.2"
serde = "1"
serde_json = { version = "1", features = ["preserve_order"] }
sync_wrapper = "0.1"
tokio = { version = "1", features = ["full"] }
tokio-stream = { version = "0.1", features = ["time"] }
