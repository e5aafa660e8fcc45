[package]
name = "http_gate"
version = "0.1.0"
edition = "2021"
publish = false

[dependencies]
anyhow = "=1.0.104"
serde_json = "=1.0.151"
spin-sdk = "=2.2.0"
uuid = { version = "=1.27.0", features = ["v4"] }
