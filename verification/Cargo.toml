[package]
name = "crypto_core"
version = "0.1.0"
edition = "2021"
publish = false

[dependencies]
aes-gcm = "0.10"
oqs = "*"
rand = "0.10"
serde = { version = "1", features = ["derive"] }
serde_json = "1"
