[package]
name = "twitch_recover"
version = "0.1.0"
edition = "2021"
publish = false

[dependencies]
rust-crypto = "0.2"
url = "2"
regex = "1"
chrono = "0.4"
reqwest = { version = "0.11", default-features = false, features = ["blocking", "rustls-tls"] }
rayon = "1"
indicatif = { version = "0.17", features = ["rayon"] }
clap = { version = "3", features = ["derive"] }
log = "0.4"
env_logger = "0.9"
