[package]
name = "gemini_orchestration"
version = "0.1.0"
edition = "2021"
publish = false

[dependencies]
url = "2"
http = "1"
serde_json = "1"
uuid = { version = "1", features = ["v4"] }
serde = { version = "1", features = ["derive"] }
reqwest = { version = "0.12", default-features = false, features = ["json", "stream"] }
tokio = { version = "1", features = ["sync", "time", "rt", "macros"] }
futures = "0.3"
anyhow = "1"
tracing = "0.1"
async-trait = "0.1"
