[package]
name = "pnft_transfer"
version = "0.1.0"
edition = "2021"
publish = false

[dependencies]
solana-program = "=2.0.25"
mpl-token-metadata = "=5.1.1"
