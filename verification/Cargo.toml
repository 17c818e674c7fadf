[package]
name = "consul"
version = "0.1.0"
edition = "2021"
publish = false

[dependencies]
base64 = "0.9"
hyper = "0.10"
serde = { version = "1", features = ["derive"] }
serde_derive = "1"
serde_json = "1"
url = "1"
