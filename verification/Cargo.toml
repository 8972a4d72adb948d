[package]
name = "cw_dao"
version = "0.1.0"
edition = "2021"
publish = false

[dependencies]
cosmwasm-std = "1.0.0-beta"
cw0 = "0.10"
cw2 = "0.10"
cw20 = "0.10"
cw-storage-plus = "0.10"
serde = { version = "1", features = ["derive"] }
thiserror = "1"
