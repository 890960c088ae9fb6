[package]
name = "jwks_service"
version = "0.1.0"
edition = "2021"
publish = false

[dependencies]
base64 = "0.22"
openssl = "0.10"
sha1 = "0.10"
uuid = { version = "1", features = ["v4"] }
serde = { version = "1", features = ["derive"] }
serde_json = "1"
