[package]
name = "kavita_discord_rpc"
version = "0.1.0"
edition = "2021"
publish = false

[dependencies]
chrono = "0.4"
discord-rich-presence = "*"
env_logger = "*"
log = "0.4"
reqwest = { version = "*", features = ["json"] }
semver = "1"
serde = { version = "1", features = ["derive"] }
serde_json = "1"
tokio = { version = "1", features = ["macros", "rt-multi-thread", "time"] }
