[package]
name = "nats_admin"
version = "0.1.0"
edition = "2021"
publish = false

[dependencies]
async-trait = "0.1"
base64 = "0.22"
reqwest = { version = "0.12", default-features = false }
serde_json = "1"
tokio = { version = "1", features = ["io-util", "net", "rt", "time"] }
uuid = { version = "1", features = ["v4"] }
