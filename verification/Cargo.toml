[package]
name = "url_shortener"
version = "0.1.0"
edition = "2021"
publish = false

[dependencies]
anyhow = "1"
rand = "0.8"
serde = { version = "1", features = ["derive"] }
serde_json = "1"
spin-sdk = "3"
