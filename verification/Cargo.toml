[package]
name = "apricot-client"
version = "0.1.0"
edition = "2021"
publish = false

[dependencies]
solana-program = "=5.1.0"
solana-sdk-ids = "=3.1.0"
spl-token = { version = "=9.0.0", features = ["no-entrypoint"] }
spl-associated-token-account = { version = "=8.0.0", features = ["no-entrypoint"] }
itertools = "=0.15.0"
anchor-lang = "=1.2.1"
