[package]
name = "pump_sniper"
version = "0.1.0"
edition = "2021"
publish = false

[dependencies]
solana-pubkey = { version = "*", features = ["curve25519"] }
spl-associated-token-account = "*"
tokio = { version = "*", features = ["rt-multi-thread", "macros", "sync", "time"] }
reqwest = { version = "*", features = ["json"] }
serde = { version = "*", features = ["derive"] }
bs58 = "*"
base64 = "*"
anyhow = "*"
thiserror = "*"

[dev-dependencies]
borsh = "*"
