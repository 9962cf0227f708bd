[package]
name = "price_feed"
version = "0.1.0"
edition = "2021"
publish = false

[dependencies]
cosmwasm-std = "1"
cosmwasm-schema = "1"
cw-storage-plus = "1"
cw-controllers = "1"
cw2 = "1"
semver = "1"
thiserror = "1"
