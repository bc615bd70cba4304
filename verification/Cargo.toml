[package]
name = "discord_bot_api"
version = "0.1.0"
edition = "2021"
publish = false

[dependencies]
regex = "1"
serde = "1"
serde_derive = "1"
serde_json = "1"
iron = "0.6"
router = "0.6"
mount = "0.4"
staticfile = "0.5"
diesel = { version = "1.4", features = ["postgres"] }
artifact_serde = "*"
