[package]
name = "h3"
version = "0.1.0"
edition = "2021"
publish = false

[dependencies]
bytes = "1"
tokio = { version = "1", features = ["sync"], default-features = false }
http = "1"
futures-util = "0.3"
