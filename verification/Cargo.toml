[package]
name = "clmm_client"
version = "0.1.0"
edition = "2021"
publish = false

[dependencies]
raydium-amm-v3 = { version = "=0.1.0", features = ["no-entrypoint", "client"] }
solana-program = "=1.16.25"
anchor-lang = "=0.29.0"
spl-token = "=4.0.0"
spl-token-2022 = "=0.9.0"
spl-associated-token-account = "=2.2.0"
spl-memo = "=4.0.0"
anyhow = "*"
rust-ini = "*"
shellexpand = "*"
