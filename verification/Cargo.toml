[package]
name = "async_llm"
version = "0.1.0"
edition = "2021"
publish = false

[dependencies]
serde = { version = "=1.0.229", features = ["derive"] }
serde_json = "=1.0.151"
reqwest = { version = "=0.12.28", default-features = false, features = ["json", "stream"] }
reqwest-eventsource = "=0.6.0"
futures = "=0.3.34"
tokio = { version = "=1.53.2", default-features = false, features = ["rt", "sync"] }
tokio-stream = "=0.1.19"
secrecy = "=0.10.3"
thiserror = "=2.0.21"
