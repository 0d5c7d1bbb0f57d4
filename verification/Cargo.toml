[package]
name = "jito_stake_pool"
version = "0.1.0"
edition = "2021"
publish = false

[dependencies]
anyhow = "=1.0.104"
borsh = "=1.8.1"
clap = { version = "=4.6.7", features = ["derive"] }
solana-program = "=2.3.0"
solana-sdk = "=2.3.1"
solana-stake-interface = "=1.2.1"
solana-system-interface = "=1.0.0"
spl-associated-token-account = "7"
spl-stake-pool = "=2.0.3"
spl-token = "=8.0.0"
