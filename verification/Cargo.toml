[package]
name = "rfkill"
version = "0.1.0"
edition = "2021"
publish = false

[dependencies]
futures = "0.3"
parse-display = "*"
thiserror = "1"
tokio = { version = "1", features = ["fs", "io-util", "rt", "sync"] }
tokio-stream = "0.1"
