[package]
name = "ledger_programs"
version = "0.1.0"
edition = "2021"
publish = false

[dependencies]
borsh = { version = "1", features = ["derive"] }
solana-program = "2"
spl-token = { version = "7", features = ["no-entrypoint"] }
thiserror = "1"
