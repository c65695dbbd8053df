[package]
name = "llm_client"
version = "0.1.0"
edition = "2021"
publish = false

[dependencies]
anyhow = "1"
async-openai = "0.28"
async-trait = "0.1"
reqwest = { version = "0.12", features = ["json"] }
schemars = "0.8"
serde = { version = "1", features = ["derive"] }
serde_json = "1"
urlencoding = "2"
