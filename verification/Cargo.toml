[package]
name = "twitch_helix"
version = "0.1.0"
edition = "2021"
publish = false

[dependencies]
url = "2"
unicase = "2"
serde = { version = "1", features = ["derive"] }
serde_json = "1"
chrono = "0.4"
thiserror = "1"
reqwest = { version = "0.12", default-features = false }
