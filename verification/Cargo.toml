[package]
name = "azure_speech"
version = "0.1.0"
edition = "2021"
publish = false

[dependencies]
chrono = "0.4"
serde_json = "1"
url = "2"
uuid = { version = "1", features = ["v4"] }
