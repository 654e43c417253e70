[package]
name = "cw_vault_standard"
version = "0.1.0"
edition = "2021"
publish = false

[dependencies]
cosmwasm-std = "1.5"
cosmwasm-schema = "1.5"
cw-storage-plus = "1.2"
cw2 = "1.1"
cw-utils = "1.0"
osmosis-std = "0.22"
serde = { version = "1", features = ["derive"] }
schemars = "0.8"
