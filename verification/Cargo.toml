[package]
name = "simplespl"
version = "0.1.0"
edition = "2021"
publish = false

[dependencies]
borsh = "0.10"
mpl-token-metadata = "=4.1.2"
solana-program = "=2.3.0"
spl-token = { version = "=6.0.0", default-features = false, features = ["no-entrypoint"] }
