[package]
name = "folder_observer"
version = "0.1.0"
edition = "2021"
publish = false

[dependencies]
uuid = "1"
tokio = { version = "1", features = ["rt", "sync", "macros"] }
tokio-stream = { version = "0.1", features = ["sync"] }
