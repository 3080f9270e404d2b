[package]
name = "solana_clicker"
version = "0.1.0"
edition = "2021"
publish = false

[dependencies]
solana-program = "=5.1.0"
solana-pubkey = { version = "=4.4.0", features = ["sha2"] }
solana-system-interface = { version = "*", features = ["bincode"] }
thiserror = "=2.0.21"

[dev-dependencies]
borsh = "=1.8.1"
