[package]
name = "archy_core"
version = "0.3.0"
edition = "2021"
publish = false

[dependencies]
async-channel = "2"
parking_lot = "0.12"
quote = "1"
syn = { version = "2", features = ["full"] }
tokio = { version = "1", features = ["full"] }
tokio-util = "0.7"
tracing = "0.1"
