[package]
name = "rusty_musicbot"
version = "0.1.0"
edition = "2021"
publish = false

[dependencies]
url = "2"
serde_json = "1"
rand = { version = "0.8", features = ["small_rng"] }
regex = "1"
