[package]
name = "faxmon_sdk"
version = "0.1.0"
edition = "2021"
publish = false

[dependencies]
chrono = "*"
reqwest = { version = "*", default-features = false }
serde_json = "*"
url = "*"
