[package]
name = "stream_relay"
version = "0.1.0"
edition = "2021"
publish = false

[dependencies]
base64 = "0.22"
tokio = { version = "1", features = ["rt", "rt-multi-thread", "sync", "time"] }
reqwest = { version = "0.12", default-features = false, features = ["stream"] }
futures-util = "0.3"
serde = { version = "1", features = ["derive"] }
serde_json = "1"
dirs = "*"
log = "0.4"
tauri = { version = "2", default-features = false }
