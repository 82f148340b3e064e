[package]
name = "discord_voice"
version = "0.1.0"
edition = "2021"
publish = false

[dependencies]
futures = "0.1"
serde_json = "1.0"
tokio-core = "0.1"
tokio-timer = "0.1"
