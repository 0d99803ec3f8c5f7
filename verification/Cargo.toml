[package]
name = "token_bridge_client"
version = "0.1.0"
edition = "2021"
publish = false

[dependencies]
solana-program = "=5.1.0"
spl-token = "=9.0.0"
spl-associated-token-account = "=8.0.0"
mpl-token-metadata = "=5.1.1"

[dev-dependencies]
solana-pubkey = "=2.4.0"
