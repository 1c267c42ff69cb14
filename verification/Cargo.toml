[package]
name = "discord_rpc"
version = "0.1.0"
edition = "2021"
publish = false

[dependencies]
uuid = { version = "*", features = ["v4"] }
log = "*"
parking_lot = "*"
tokio = { version = "*", features = ["rt", "time"] }
discord-sdk = "*"
