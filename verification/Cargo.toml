[package]
name = "audio_fetch"
version = "0.1.0"
edition = "2021"
publish = false

[dependencies]
zip = { version = "*", default-features = false, features = ["deflate"] }
reqwest = { version = "0.12", default-features = false, features = ["default-tls"] }
tokio = { version = "1", features = ["process", "sync"] }
window-vibrancy = "0.6"
