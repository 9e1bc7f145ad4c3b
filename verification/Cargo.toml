[package]
name = "submit_engine"
version = "0.1.0"
edition = "2021"
publish = false

[dependencies]
steel = "=4.0.9"
eore-api = "=3.6.2"
eore-boost-api = "=4.0.1"
fixed = "=1.28.0"
solana-sdk = "=2.1.16"
solana-program = "=2.1.16"

[dev-dependencies]
bincode = "=1.3.3"
