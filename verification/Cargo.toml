[package]
name = "relay"
version = "0.1.0"
edition = "2021"
publish = false

[dependencies]
solana-program = "*"
solana-sdk = "*"
hex = "*"
config = { version = "*", default-features = false, features = ["toml"] }
serde = { version = "*", features = ["derive"] }
shellexpand = "*"
eyre = "*"
tokio = { version = "*", features = ["rt-multi-thread", "macros", "time"] }
