[package]
name = "fast_version"
version = "0.1.0"
edition = "2021"
publish = false

[dependencies]
serde = { version = "1", features = ["derive"] }
tokio = { version = "1", features = ["io-util"] }
pin-project = "1"

[dev-dependencies]
rand = "0.8"
