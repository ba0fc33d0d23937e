[package]
name = "images_service"
version = "0.1.0"
edition = "2021"
publish = false

[dependencies]
rand = "0.8"
hyper = { version = "0.14", features = ["server", "http1", "tcp", "stream"] }
tokio = { version = "1", features = ["full"] }
tokio-util = { version = "0.7", features = ["codec"] }
futures = "0.3"
anyhow = "1"
