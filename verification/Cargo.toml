[package]
name = "solana_stablecoin"
version = "0.1.0"
edition = "2021"
publish = false

[dependencies]
anchor-lang = { version = "0.30.1", features = ["init-if-needed"] }
anchor-spl = "0.30.1"
stablebond-sdk = "*"
switchboard-solana = "*"
