[package]
name = "bakome_ai_bot"
version = "0.1.0"
edition = "2021"
publish = false

[dependencies]
lettre = { version = "0.11", default-features = false, features = ["builder", "smtp-transport", "rustls-tls", "hostname"] }
rand = "0.8"
axum = "0.7"
tokio = { version = "1", features = ["full"] }
redis = { version = "0.25", features = ["tokio-comp"] }
reqwest = { version = "0.12", default-features = false, features = ["json", "rustls-tls"] }
serde = { version = "1", features = ["derive"] }
serde_json = "1"
anyhow = "1"
dotenv = "0.15"
tracing = "0.1"
tracing-subscriber = "0.3"
