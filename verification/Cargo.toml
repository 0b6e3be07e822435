[package]
name = "migrador"
version = "0.1.0"
edition = "2021"
publish = false

[dependencies]
base64 = "0.21"
dotenv = "0.15"
dialoguer = "0.11"
indicatif = "0.17"
futures = "0.3"
serde = { version = "1", features = ["derive"] }
tokio = { version = "1", features = ["macros", "rt-multi-thread"] }
mongodb = "2"
mysql = "24"
