[package]
name = "carbon_indexer"
version = "0.1.0"
edition = "2021"
publish = false

[dependencies]
async-trait = "*"
carbon-core = "=0.12.0"
futures = "*"
log = "*"
serde = { version = "*", features = ["derive"] }
solana-account = "*"
solana-instruction = "*"
solana-pubkey = "*"
solana-signature = "*"
solana-system-interface = "*"
tokio = { version = "*", features = ["sync", "macros", "rt-multi-thread", "time"] }
tokio-util = "*"
yellowstone-grpc-proto = { version = "*", default-features = false }
