[package]
name = "pentaract"
version = "0.1.0"
edition = "2021"
publish = false

[dependencies]
uuid = { version = "=1.27.0", features = ["v4", "serde"] }
mime_guess = "=2.0.5"
axum = { version = "=0.6.20", features = ["multipart"] }
reqwest = { version = "=0.11.27", default-features = false }
serde = { version = "1", features = ["derive"] }
tokio = { version = "=1.53.2", features = ["fs", "io-util", "rt", "macros"] }
tokio-util = "=0.7.19"
