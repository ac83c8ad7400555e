[package]
name = "rocket_oauth2"
version = "0.1.0"
edition = "2021"
publish = false

[dependencies]
url = "=2.5.8"
serde_json = "=1.0.154"
rocket = { version = "=0.5.2", default-features = false, features = ["secrets"] }
hyper = { version = "=0.14.32", features = ["client", "http1", "tcp"] }
hyper-rustls = "=0.24.2"
