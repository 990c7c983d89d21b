[package]
name = "morpheum_sdk"
version = "0.1.0"
edition = "2021"
publish = false

[dependencies]
alloy-primitives = "1"
hex = "0.4"
k256 = { version = "0.13", features = ["ecdsa"] }
serde = { version = "1", features = ["derive"] }
serde_json = "1"
sha3 = "0.10"
toml = "0.8"
