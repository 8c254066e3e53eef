[package]
name = "interchain_gov"
version = "0.1.0"
edition = "2021"
publish = false

[dependencies]
sha2 = "0.10"
base64 = "0.22"
cosmwasm-std = "1.5"
serde = { version = "1.0", features = ["derive"] }
