[package]
name = "rag_session"
version = "0.1.0"
edition = "2021"
publish = false

[dependencies]
anyhow = "*"
env_logger = "*"
futures-util = "*"
json = "*"
log = "*"
ollama-rs = { version = "*", features = ["stream"] }
redis = "*"
tokio = { version = "*", features = ["full"] }
tokio-tungstenite = "*"
