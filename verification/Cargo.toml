[package]
name = "tokio-dl-stream-to-disk"
version = "1.0.0"
edition = "2021"

[dependencies]
bytes = "1"
futures-util = "0.3"
reqwest = { version = "0.11", features = ["stream"] }
sha2 = "0.10"
tokio = { version = "1", features = ["fs", "io-util"] }
tokio-util = { version = "0.7", features = ["io"] }
