[package]
name = "txio_api"
version = "0.1.0"
edition = "2021"
publish = false

[dependencies]
mongodb = "2"
chrono = "0.4"
axum = "0.7"
serde = { version = "1", features = ["derive"] }
