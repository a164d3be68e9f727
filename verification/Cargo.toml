[package]
name = "ipet"
version = "0.1.0"
edition = "2021"
publish = false

[dependencies]
aes-gcm = "0.10"
base64 = "0.22"
dirs = "6"
hostname = "0.4"
rand = "0.9"
serde = { version = "1", features = ["derive"] }
serde_json = "1"
