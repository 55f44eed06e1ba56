[package]
name = "lark_relay"
version = "0.1.0"
edition = "2021"
publish = false

[dependencies]
async-openai = { version = "=0.42.1", features = ["chat-completion"] }
axum = "=0.8.9"
reqwest = { version = "=0.12.28", default-features = false, features = ["json", "rustls-tls"] }
serde_json = "=1.0.151"
tokio = { version = "=1.53.2", features = ["full"] }
