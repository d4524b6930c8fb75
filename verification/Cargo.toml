[package]
name = "doh_dns"
version = "0.1.0"
edition = "2021"
publish = false

[dependencies]
idna = "0.5"
serde_json = "1"
http = "0.2"
hyper = { version = "0.14", features = ["client", "http1", "http2", "tcp"] }
hyper-tls = "0.5"
native-tls = "0.2"
tokio = { version = "1", features = ["rt", "time"] }
