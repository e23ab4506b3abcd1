[package]
name = "wsproxy"
version = "0.1.0"
edition = "2021"
publish = false

[dependencies]
hyper = { version = "0.14", features = ["server", "client", "http1", "tcp"] }
hyper-tungstenite = "0.11"
tokio = { version = "1", features = ["rt-multi-thread", "macros", "net"] }
tokio-tungstenite = "0.20"
futures-util = "0.3"
