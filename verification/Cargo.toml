[package]
name = "cms_core"
version = "0.1.0"
edition = "2021"
publish = false

[dependencies]
serde = { version = "1", features = ["derive"] }
serde_json = "1"
hmac = "0.12"
sha2 = "0.10"
jwt = "0.16"
rand = "0.8"
chrono = "0.4"
