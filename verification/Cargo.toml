[package]
name = "reward_distributor"
version = "0.1.0"
edition = "2021"
publish = false

[dependencies]
cosmwasm-std = "1"
cw-storage-plus = "1"
cw2 = "1"
cw20 = "1"
cw-ownable = "0.5"
cw-address-like = "1"
cw-vault-standard = "*"
cw-dex = { version = "0.5", features = ["astroport"] }
apollo-cw-asset = "*"
serde = { version = "1", features = ["derive"] }
thiserror = "1"
