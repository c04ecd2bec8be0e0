[package]
name = "frost_threshold"
version = "0.1.0"
edition = "2021"
publish = false

[dependencies]
frost-ed25519 = "=3.0.0"
rand = "=0.8.8"
ed25519-dalek = "=3.0.0"
bs58 = "=0.5.1"
hex = "=0.4.3"
serde = { version = "=1.0.229", features = ["derive"] }
serde_json = "=1.0.151"
anyhow = "=1.0.104"
clap = { version = "=4.6.7", features = ["derive"] }
tokio = { version = "=1.53.2", features = ["full"] }
axum = "=0.8.9"
reqwest = { version = "=0.13.5", features = ["blocking", "json"] }
tracing = "=0.1.44"
tracing-subscriber = "=0.3.23"
