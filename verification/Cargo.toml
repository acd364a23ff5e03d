[package]
name = "backend"
version = "0.1.0"
edition = "2021"
publish = false

[dependencies]
rand = "0.8"
protobuf = "2"
futures-util = "0.3"
tokio = { version = "1", features = ["macros", "rt-multi-thread", "net", "sync", "time"] }
tokio-tungstenite = "*"
