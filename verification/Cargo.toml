[package]
name = "t_vault_web_server"
version = "0.1.0"
edition = "2021"
publish = false

[dependencies]
askama = "0.12"
askama_axum = "0.4"
axum = "0.7"
base64 = "0.21"
bincode = "1"
chrono = { version = "0.4", features = ["serde"] }
deadpool-diesel = { version = "0.6", features = ["mysql"] }
diesel = { version = "2", features = ["mysql", "chrono"] }
dotenv = "0.15"
serde = { version = "1", features = ["derive"] }
solana-sdk = { version = "*", default-features = false }
tokio = { version = "1", features = ["full"] }
