[package]
name = "curlmaster"
version = "0.1.0"
edition = "2021"
publish = false

[dependencies]
base64 = "*"
dashmap = "=6.2.1"
futures = "=0.3.34"
reqwest = { version = "=0.12.28", default-features = false, features = ["multipart", "rustls-tls"] }
serde_json = "=1.0.151"
tokio = { version = "=1.53.2", features = ["rt", "rt-multi-thread", "net", "time", "io-util", "sync"] }
uuid = { version = "=1.27.0", features = ["v4"] }
