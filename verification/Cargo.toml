[package]
name = "plex_discord_rpc"
version = "0.1.0"
edition = "2021"
publish = false

[dependencies]
reqwest = { version = "*", default-features = false, features = ["json"] }
tokio = { version = "*", features = ["rt-multi-thread", "macros", "sync", "time"] }
tokio-tungstenite = "*"
futures-util = "*"
serde = { version = "*", features = ["derive"] }
serde_json = "*"
directories = "*"
uuid = { version = "*", features = ["v4"] }
webbrowser = "*"
discord-presence-rs = "*"
