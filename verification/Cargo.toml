[package]
name = "solkit"
version = "0.1.0"
edition = "2021"
publish = false

[dependencies]
bs58 = "0.5"
base64 = "0.22"
solana-sdk = "1.18"
serde = { version = "1", features = ["derive"] }
serde_json = "1"
tokio = { version = "1", features = ["full"] }
warp = "0.3"

[dev-dependencies]
spl-token = "4.0"
spl-associated-token-account = "2.3"
