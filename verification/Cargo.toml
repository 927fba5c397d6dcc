[package]
name = "timeline_core"
version = "0.1.0"
edition = "2021"
publish = false

[dependencies]
mime = "*"
uuid = { version = "*", features = ["v4"] }
ruma = { version = "*", default-features = false }
tokio = { version = "*", features = ["rt-multi-thread", "sync", "time", "macros"] }
futures-util = "*"
eyeball-im = "*"
anyhow = "*"
