[package]
name = "counter_account"
version = "0.1.0"
edition = "2021"
publish = false

[dependencies]
borsh = "0.10"
serde = { version = "1", features = ["derive"] }
solana-program = "1.18"
anchor-lang = "0.30"
