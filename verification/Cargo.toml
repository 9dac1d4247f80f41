[package]
name = "can_link"
version = "0.1.0"
edition = "2021"
publish = false

[dependencies]
socketcan = { version = "*", features = ["tokio"] }
tokio = { version = "*", features = ["io-util"] }
