[package]
name = "voucher"
version = "0.1.0"
edition = "2021"
publish = false

[dependencies]
cosmwasm-schema = "=1.5.11"
cosmwasm-std = "=1.5.11"
cw-storage-plus = "=1.2.0"
cw2 = "=1.1.2"
cw721 = "=0.18.0"
cw2981-royalties = "=0.18.0"

[dev-dependencies]
serde_json = "=1.0.154"
