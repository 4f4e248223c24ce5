[package]
name = "my_telemetry"
version = "0.1.0"
edition = "2021"
publish = false

[dependencies]
lazy_static = "1"
tokio = { version = "1", features = ["sync", "rt-multi-thread", "time", "macros"] }
