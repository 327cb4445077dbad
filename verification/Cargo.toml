[package]
name = "ollama_deep_researcher"
version = "0.1.0"
edition = "2021"
publish = false

[dependencies]
serde = { version = "1", features = ["derive"] }
serde_json = "1"
anyhow = "1"
tokio = { version = "1", features = ["full"] }
axum = "0.7"
tower-http = { version = "0.5", features = ["cors"] }
http = "1"
futures = "0.3"
async-stream = "0.3"
dotenv = "0.15"
reqwest = { version = "0.12", default-features = false, features = ["json"] }
ollama-rs = "*"
