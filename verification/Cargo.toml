[package]
name = "solana_token_viewer"
version = "0.1.0"
edition = "2021"
publish = false

[dependencies]
solana-account-decoder = { version = "=4.0.3", features = ["agave-unstable-api"] }
reqwest = { version = "=0.13.5", features = ["blocking", "json"] }
serde = { version = "=1.0.229", features = ["derive"] }
tokio = { version = "=1.54.1", features = ["macros", "rt-multi-thread"] }
