[package]
name = "quantumsafe_finance"
version = "0.1.0"
edition = "2021"
publish = false

[dependencies]
base64 = "0.22"
hmac = "0.12"
rand = "0.8"
serde_json = "1"
sha3 = "0.10"
