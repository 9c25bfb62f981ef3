[package]
name = "intermediary"
version = "0.1.0"
edition = "2021"
publish = false

[dependencies]
solana-program = "2"
spl-token = { version = "*", features = ["no-entrypoint"] }
borsh = "1"
