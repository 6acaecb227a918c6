[package]
name = "token_mint"
version = "0.1.0"
edition = "2021"
publish = false

[dependencies]
solana-program = "1.18"
bincode = "1.3"

[dev-dependencies]
spl-token = { version = "4", default-features = false, features = ["no-entrypoint"] }
