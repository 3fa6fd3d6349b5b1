[package]
name = "libllm"
version = "0.1.0"
edition = "2021"
publish = false

[dependencies]
hex = "=0.4.3"
sha2 = "=0.10.9"
rusqlite = { version = "=0.40.2", features = ["bundled"] }
serde = { version = "=1.0.229", features = ["derive"] }
serde_json = "=1.0.151"
openai = "=1.1.1"
tokio = { version = "=1.53.2", features = ["rt-multi-thread"] }
