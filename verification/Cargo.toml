[package]
name = "discord_mute"
version = "0.1.0"
edition = "2021"
publish = false

[dependencies]
actix-files = "0.6"
actix-web = "4"
actix-ws = "0.3"
anyhow = "1"
futures-util = "0.3"
hidapi = { version = "2", default-features = false, features = ["linux-native-basic-udev"] }
reqwest = { version = "0.12", default-features = false, features = ["blocking", "json", "rustls-tls"] }
serde = { version = "1", features = ["derive"] }
serde_json = "1"
time = { version = "0.3", features = ["parsing", "formatting"] }
tokio = { version = "1", features = ["sync", "macros"] }
uuid = { version = "1", features = ["v4"] }
