[package]
name = "bot_state"
version = "0.1.0"
edition = "2021"
publish = false

[dependencies]
async-graphql = { version = "7", default-features = false }
serde = { version = "1", features = ["derive"] }
serde_json = "1"
