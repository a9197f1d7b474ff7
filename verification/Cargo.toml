[package]
name = "request_metrics"
version = "0.1.0"
edition = "2021"
publish = false

[dependencies]
anyhow = "1"
dashmap = "6"
jni = "0.21"
log = "0.4"
parking_lot = "0.12"
rand = "0.9"
redis = { version = "0.27", default-features = false }
thiserror = "1"
tokio = { version = "1", features = ["rt-multi-thread", "sync", "time"] }
