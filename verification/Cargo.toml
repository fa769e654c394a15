[package]
name = "voting_registrar"
version = "0.1.0"
edition = "2021"
publish = false

[dependencies]
solana-program = "1.18"
borsh = "0.10"
spl-token = "4"
spl-associated-token-account = "2"
spl-governance-addin-api = "0.1"
bytemuck = "1"
fixed = "1"
