[package]
name = "snapchat_capi"
version = "0.1.0"
edition = "2021"
publish = false

[dependencies]
serde_json = "1"
sha2 = "0.10"

[dev-dependencies]
uuid = { version = "1", features = ["v4"] }
