[package]
name = "lending_sdk"
version = "0.1.0"
edition = "2021"
publish = false

[dependencies]
solana-sdk = "=5.0.0"
solana-pubkey = { version = "=4.4.0", features = ["curve25519"] }
