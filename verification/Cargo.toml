[package]
name = "fedirust"
version = "0.1.0"
edition = "2021"
publish = false

[dependencies]
dialoguer = "0.11"
reqwest = { version = "0.12", default-features = false, features = ["blocking", "rustls-tls"] }
serde_json = "1"
url = "2"
