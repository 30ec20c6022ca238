[package]
name = "poem_api"
version = "0.1.0"
edition = "2021"
publish = false

[dependencies]
tokio = { version = "1", features = ["sync", "macros", "rt-multi-thread"] }
rand = "0.8"
serde = { version = "1", features = ["derive"] }
serde_json = "1"
poem = { version = "1", features = ["websocket", "cookie"] }
mongodb = "2"
redis = "0.23"
fireauth = "0.1"
parking_lot = "0.12"
futures-util = "0.3"
tracing-subscriber = "0.3"
