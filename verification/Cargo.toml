[package]
name = "reqsink"
version = "0.2.1"
edition = "2021"
publish = false

[dependencies]
bincode = "1.3"
chrono = "0.4"
clap = { version = "3.2", features = ["derive"] }
env_logger = "0.10"
flate2 = "1"
log = "0.4"
rusqlite = "0.29"
serde = { version = "1", features = ["derive"] }
serde_derive = "1"
serde_json = "1"
snap = "1"
tera = "1"
tiny_http = "0.12"
url = "2"
