[package]
name = "spl_airdropper"
version = "0.1.0"
edition = "2021"
publish = false

[dependencies]
anyhow = "1"
clap = { version = "4", features = ["derive"] }
serde_json = "1"
shellexpand = "3"
solana-sdk = "2.2"
solana-system-interface = "1.0"
spl-associated-token-account = { version = "6.0", features = ["no-entrypoint"] }
spl-token = { version = "7.0", features = ["no-entrypoint"] }
