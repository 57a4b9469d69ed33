[package]
name = "counter_contract"
version = "0.1.0"
edition = "2021"
publish = false

[dependencies]
cosmwasm-std = "=3.0.10"
cw2 = "=3.0.0"
cw-storage-plus = "=3.0.1"
schemars = "=0.8.22"
serde = { version = "=1.0.229", features = ["derive"] }
