[package]
name = "kiosk_feed"
version = "0.1.0"
edition = "2021"
publish = false

[dependencies]
base64 = "0.22"
flate2 = "1"
regex = "1"
serde_json = "1"
reqwest = { version = "0.12", features = ["cookies"] }
rust_socketio = { version = "0.6", features = ["async"] }
tokio = { version = "1", features = ["macros", "rt-multi-thread", "time"] }
futures-util = "0.3"
prost = "*"
gtfs-realtime = "*"
