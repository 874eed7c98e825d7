[package]
name = "tip_settlement"
version = "0.1.0"
edition = "2021"
publish = false

[dependencies]
borsh = { version = "1", features = ["derive"] }
solana-program = "1.18"
spl-token = { version = "4", features = ["no-entrypoint"] }
