[package]
name = "dcap_verify"
version = "0.1.0"
edition = "2021"
publish = false

[dependencies]
serde = { version = "1", features = ["derive"] }
serde_json = "1"
x509-parser = "*"
p256 = { version = "0.13", features = ["ecdsa"] }
