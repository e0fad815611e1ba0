[package]
name = "ispot"
version = "0.1.0"
edition = "2021"
publish = false

[dependencies]
chrono = "=0.4.45"
clap = "=2.34.0"
env_logger = "=0.6.2"
failure = "=0.1.8"
log = "0.4"
plist = "=0.4.2"
prettytable-rs = "=0.10.0"
rspotify = { version = "=0.13.3", default-features = false, features = ["client-ureq", "ureq-rustls-tls", "cli"] }
serde = { version = "1", features = ["derive"] }
