[package]
name = "stacktrader_systems"
version = "0.1.0"
edition = "2021"
publish = false

[dependencies]
decscloud-common = "=0.0.1"
waxosuit-guest = "=0.3.6"
serde = { version = "=1.0.229", features = ["derive"] }
serde_json = "=1.0.154"
