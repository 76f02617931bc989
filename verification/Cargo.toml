[package]
name = "sk_music"
version = "1.1.3"
edition = "2021"
publish = false

[dependencies]
serde = { version = "1", features = ["derive"] }
serde_json = "1"
url = "2"
http = "1"
image = { version = "0.25", default-features = false, features = ["png"] }
tokio = { version = "1", features = ["sync", "time"] }
reqwest = { version = "0.12", default-features = false }
