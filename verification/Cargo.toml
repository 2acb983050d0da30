[package]
name = "file_driver"
version = "0.1.0"
edition = "2021"
publish = false

[dependencies]
tokio = { version = "1", features = ["fs", "rt", "sync"] }
tracing = "0.1"
