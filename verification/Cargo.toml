[package]
name = "program_client"
version = "0.1.0"
edition = "2021"
publish = false

[dependencies]
anyhow = "*"
clap = { version = "*", features = ["derive"] }
shellexpand = "*"
solana-sdk = "=2.2.2"
