[package]
name = "juno_raffle"
version = "0.1.0"
edition = "2021"
publish = false

[dependencies]
rand_chacha = "0.3"
rand_core = "0.6"
sha2 = "0.10"
base64 = "0.13"
cosmwasm-std = "1"
cw20 = "1"
cw-storage-plus = "1"
schemars = "0.8"
serde = { version = "1", features = ["derive"] }
thiserror = "1"
