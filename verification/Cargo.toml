[package]
name = "tokio-socketcan-isotp"
version = "0.1.0"
edition = "2021"
publish = false

[dependencies]
futures = "0.3"
socketcan-isotp = "*"
tokio = { version = "1", features = ["net"] }
