[package]
name = "api_client"
version = "0.1.0"
edition = "2021"
publish = false

[dependencies]
base64 = "0.21"
futures = "0.3"
hyper = { version = "0.14", features = ["client", "http1", "http2", "tcp"] }
hyper-tls = "0.5"
secrecy = "0.8"
serde = { version = "1", features = ["derive"] }
serde_json = "1"
serde_qs = "0.12"
serde_urlencoded = "0.7"
thiserror = "1"
tower = "0.4"
