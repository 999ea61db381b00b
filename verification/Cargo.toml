[package]
name = "flashduty_sdk"
version = "0.1.0"
edition = "2021"
publish = false

[dependencies]
serde_json = "1"
crossbeam-channel = "0.5"
log = "0.4"
reqwest = { version = "0.12", default-features = false, features = ["blocking"] }
