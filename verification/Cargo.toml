[package]
name = "ws_chat"
version = "0.1.0"
edition = "2021"
publish = false

[dependencies]
url = "2"
tokio = { version = "1", features = ["macros", "rt-multi-thread", "io-std", "io-util"] }
tokio-tungstenite = "*"
futures-util = { version = "0.3", features = ["sink"] }
futures-channel = "0.3"
