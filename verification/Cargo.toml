[package]
name = "voice_listener"
version = "0.1.0"
edition = "2021"
publish = false

[dependencies]
base64 = "=0.23.1"
serde = { version = "=1.0.229", features = ["derive"] }
