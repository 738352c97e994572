[package]
name = "beethoven_swaps"
version = "0.1.0"
edition = "2021"
publish = false

[dependencies]
solana-account-view = "=3.0.0"
solana-address = { version = "=2.9.0", features = ["decode"] }
solana-instruction-view = { version = "=3.0.0", features = ["cpi"] }
solana-program-error = "=3.0.1"
pinocchio = "=0.12.0"
