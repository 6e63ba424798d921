[package]
name = "event_bridge"
version = "0.1.0"
edition = "2021"
publish = false

[dependencies]
tokio = { version = "1", features = ["rt", "rt-multi-thread", "sync", "macros"] }
swayipc-async = "*"
zbus = "*"
futures-lite = "*"
futures-signals = "*"
