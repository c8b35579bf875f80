[package]
name = "llm_client"
version = "0.1.0"
edition = "2021"

[dependencies]
serde = { version = "*", features = ["derive"] }
serde_json = "*"
indexmap = "*"
atlas-http = "*"
