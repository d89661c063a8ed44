[package]
name = "wynncraft_api"
version = "0.1.0"
edition = "2021"
publish = false

[dependencies]
anyhow = "*"
reqwest = { version = "*", default-features = false }
serde_json = "*"
