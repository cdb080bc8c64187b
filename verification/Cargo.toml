[package]
name = "opa"
version = "0.1.0"
edition = "2021"
publish = false

[dependencies]
regorus = "=0.4.0"
hex = "=0.4.3"
hmac = "=0.12.1"
sha2 = "=0.10.9"
harsh = "=0.2.2"
serde = { version = "=1.0.229", features = ["derive"] }
serde_json = "=1.0.151"
figment = { version = "=0.10.19", features = ["toml"] }
