[package]
name = "coinbase_pro_api"
version = "0.1.0"
edition = "2021"
publish = false

[dependencies]
anyhow = "1"
chrono = "0.4"
governor = "*"
reqwest = "*"
serde_json = "1"
url = "2"
