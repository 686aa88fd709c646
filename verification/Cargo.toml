[package]
name = "rollup_counter"
version = "0.1.0"
edition = "2021"
publish = false

[dependencies]
borsh = "=1.8.1"
solana-program = "=2.3.0"
ephemeral-rollups-sdk = { version = "=0.17.3", features = ["backward-compat"] }
