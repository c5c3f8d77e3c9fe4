[package]
name = "figma-discord-rp"
version = "0.1.0"
edition = "2021"
publish = false

[dependencies]
semver = "=1.0.28"
sha2 = "=0.10.9"
hex = "=0.4.3"
serde = { version = "=1.0.229", features = ["derive"] }
serde_json = "=1.0.154"
reqwest = { version = "=0.12.28", default-features = false, features = ["blocking", "json", "rustls-tls"] }
tempfile = "=3.27.0"
indicatif = "=0.17.11"
chrono = { version = "=0.4.45", default-features = false, features = ["clock"] }
owo-colors = "=4.4.0"
anyhow = "=1.0.104"
dirs = "=7.0.0"
open = "5"
discord-rich-presence = "*"
