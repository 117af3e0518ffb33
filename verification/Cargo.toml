[package]
name = "raw_socket_upgrade"
version = "0.1.0"
edition = "2021"
publish = false

[dependencies]
axum = { version = "0.8", default-features = false, features = ["http1", "http2", "tokio", "ws"] }
base64 = "0.22"
hyper = { version = "1", features = ["http1", "http2", "server"] }
hyper-util = { version = "0.1", features = ["tokio"] }
sha1 = "0.10"
tokio = { version = "1", features = ["rt"] }
