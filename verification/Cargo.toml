[package]
name = "rbot_discord"
version = "0.1.0"
edition = "2021"
publish = false

[dependencies]
regex = "1"
base64 = "0.13"
rand = "0.8"
chrono = "0.4"
chrono-tz = "0.8"
serde = { version = "1", features = ["derive"] }
serde_json = "1"
log = "0.4"
serenity = "0.11"
tokio = { version = "1", features = ["rt-multi-thread", "macros", "sync"] }
reqwest = "0.11"
