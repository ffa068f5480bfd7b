[package]
name = "tradestation"
version = "0.1.0"
edition = "2021"
publish = false

[dependencies]
url = "2"
reqwest = { version = "0.12", default-features = false, features = ["json", "stream", "rustls-tls"] }
serde = { version = "1", features = ["derive"] }
serde_json = "1"
tokio = { version = "1", features = ["io-util", "sync", "time", "macros", "rt-multi-thread"] }
tokio-util = { version = "0.7", features = ["codec", "io"] }
futures = "0.3"
async-stream = "0.3"
tracing = "0.1"
