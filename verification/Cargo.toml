[package]
name = "watcher_core"
version = "0.1.0"
edition = "2021"
publish = false

[dependencies]
base64 = "0.22"
image = { version = "0.25", default-features = false, features = ["jpeg"] }
serde = { version = "1", features = ["derive"] }
serde_json = "1"
tokio = { version = "1", features = ["rt-multi-thread", "macros", "sync", "time", "net"] }
tokio-tungstenite = "0.24"
futures = "0.3"
http = "1"
url = "2"
thiserror = "2"
parking_lot = "0.12"
