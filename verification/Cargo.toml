[package]
name = "jamodio"
version = "0.6.4"
edition = "2021"
publish = false

[dependencies]
base64 = "0.22"
serde = { version = "1", features = ["derive"] }
serde_json = "1"
tokio = { version = "1", features = ["rt-multi-thread", "macros", "net", "sync", "time", "io-util", "process"] }
axum = { version = "0.7", features = ["ws"] }
futures = "0.3"
parking_lot = "0.12"
crossbeam-channel = "0.5"
socket2 = "0.5"
rubato = "0.15"
tracing = "0.1"
tracing-subscriber = { version = "0.3", features = ["env-filter"] }
cpal = "0.15"
