[package]
name = "chat_protocol"
version = "0.1.0"
edition = "2021"
publish = false

[dependencies]
base64 = "=0.23.1"
chrono = "=0.4.45"
serde_json = { version = "=1.0.154", features = ["preserve_order"] }
