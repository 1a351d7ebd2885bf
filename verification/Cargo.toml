[package]
name = "calc_conditions"
version = "0.1.0"
edition = "2021"
publish = false

[dependencies]
cosmwasm-std = "=2.2.2"
cosmwasm-schema = "=2.3.5"
cw-storage-plus = "=2.0.0"
rujira-rs = "=0.0.1"
thiserror = "=1.0.69"
serde = "=1.0.229"
