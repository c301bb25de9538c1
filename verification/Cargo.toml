[package]
name = "telnyx"
version = "0.1.0"
edition = "2021"

[dependencies]
hyper = { version = "0.14", features = ["client", "http1", "http2", "tcp"] }
hyper-tls = "0.5"
log = "0.4"
serde = "1"
serde_json = "1"
