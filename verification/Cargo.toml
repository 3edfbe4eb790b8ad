[package]
name = "icatest"
version = "0.1.0"
edition = "2021"
publish = false

[dependencies]
cosmos-sdk-proto = { version = "=0.27.0", default-features = false }
cosmwasm-std = { version = "=1.5.11", features = ["stargate"] }
cosmwasm-schema = "=1.5.11"
cw-storage-plus = "=1.2.0"
cw2 = "=1.1.2"
