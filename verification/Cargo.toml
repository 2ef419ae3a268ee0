[package]
name = "openai"
version = "0.1.0"
edition = "2021"
publish = false

[dependencies]
derive_builder = "0.20"
futures-util = "0.3"
reqwest = { version = "0.12", features = ["json", "multipart"] }
reqwest-eventsource = "0.6"
serde = { version = "1", features = ["derive"] }
serde_json = "1"
tokio = { version = "1", features = ["sync", "rt"] }
