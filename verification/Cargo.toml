[package]
name = "fee_contracts"
version = "0.1.0"
edition = "2021"
publish = false

[dependencies]
soroban-sdk = "*"
cosmwasm-std = "*"
cw-storage-plus = "*"
