[package]
name = "ecommerce"
version = "0.1.0"
edition = "2021"
publish = false

[dependencies]
actix = "0.13"
actix-rt = "2"
csv = "1"
futures = "0.3"
rand = "0.8"
serde = { version = "1", features = ["derive"] }
serde_json = "1"
std-semaphore = "0.1"
tokio = { version = "1", features = ["time"] }
tokio-util = { version = "0.7", features = ["codec", "net"] }
