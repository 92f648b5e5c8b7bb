[package]
name = "astrid-capsule-registry"
version = "0.1.0"
edition = "2021"
publish = false

[dependencies]
astrid-sdk = "=0.2.2"
extism-pdk = "=1.4.1"
serde = { version = "=1.0.229", features = ["derive"] }
serde_json = "=1.0.154"
