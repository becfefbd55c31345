[package]
name = "sol_helper"
version = "0.1.0"
edition = "2021"
publish = false

[dependencies]
axum = "0.7"
base64 = "0.21"
bs58 = "0.5"
serde = { version = "1", features = ["derive"] }
serde_json = "1"
solana-sdk = "2.2"
tokio = { version = "1", features = ["macros", "rt-multi-thread", "net"] }

[dev-dependencies]
solana-program = "2.2"
spl-associated-token-account = "7"
spl-token = "8"
