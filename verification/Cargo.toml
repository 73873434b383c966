[package]
name = "audd"
version = "1.4.0"
edition = "2021"
publish = false

[dependencies]
md5 = "0.7"
url = "2"
reqwest = { version = "0.12", default-features = false, features = ["multipart", "rustls-tls"] }
serde = { version = "1", features = ["derive"] }
serde_json = "1"
thiserror = "2"
tokio = { version = "1", features = ["rt", "fs", "io-util", "time", "sync", "macros"] }
async-stream = "0.3"
futures-core = "0.3"
tracing = "0.1"
