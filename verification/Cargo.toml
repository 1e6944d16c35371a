[package]
name = "moonbois_cli"
version = "0.1.0"
edition = "2021"
publish = false

[dependencies]
serde_json = "*"
tokio = { version = "*", features = ["full"] }
dialoguer = { version = "*", features = ["fuzzy-select"] }
console = "*"
spinoff = "*"
crossterm = "*"
thiserror = "*"
solana-sdk = "*"
