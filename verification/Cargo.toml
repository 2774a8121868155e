[package]
name = "counter_program"
version = "0.1.0"
edition = "2021"
publish = false

[dependencies]
bincode = "=1.3.3"
solana-program = "=1.18.26"
solana-rpc-client = { version = "=1.18.26", default-features = false }
solana-sdk = "=1.18.26"
solana-transaction-status = "=1.18.26"
tracing = { version = "0.1", default-features = false, features = ["std"] }
url = "=2.4.1"
