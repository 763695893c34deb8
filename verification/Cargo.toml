[package]
name = "katana_core"
version = "0.1.0"
edition = "2021"
publish = false

[dependencies]
serde_json = "*"
starknet-core = "*"
starknet-crypto = "*"
