[package]
name = "anime_bot"
version = "0.1.0"
edition = "2021"
publish = false

[dependencies]
serde_json = "1"
serde = { version = "1", features = ["derive"] }
reqwest = { version = "0.11", default-features = false, features = ["json", "rustls-tls"] }
serenity = { version = "0.12", default-features = false, features = ["builder", "client", "gateway", "model", "http", "rustls_backend"] }
tokio = { version = "1", features = ["macros", "rt-multi-thread", "fs"] }
dotenv = "0.15"
