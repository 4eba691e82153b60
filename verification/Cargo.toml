[package]
name = "cremation"
version = "0.1.0"
edition = "2021"
publish = false

[dependencies]
cosmwasm-std = "1.5"
cosmwasm-schema = "1.5"
cw-storage-plus = "1.2"
cw2 = "1.1"
cw20 = "1.1"
cw20-base = { version = "1.1", features = ["library"] }
classic_terraswap = "*"
thiserror = "1"
serde = { version = "1", default-features = false, features = ["derive"] }
schemars = "0.8"
