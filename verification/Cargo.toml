[package]
name = "http-client"
version = "0.1.0"
edition = "2021"
publish = false

[dependencies]
bytes = "1"
http-body-util = "0.1"
hyper = { version = "1", features = ["client", "http1", "http2"] }
hyper-rustls = { version = "0.27", default-features = false, features = ["http1", "http2", "native-tokio", "ring", "tls12"] }
hyper-util = { version = "0.1", features = ["client-legacy", "http1", "http2", "tokio"] }
serde = "1"
serde_json = "1"
url = "2"
