[package]
name = "clipper"
version = "0.1.0"
edition = "2021"
publish = false

[dependencies]
anyhow = "1"
chrono = { version = "0.4", features = ["serde"] }
clap = { version = "4", features = ["derive"] }
comfy-table = "7"
csv = "1"
dirs = "*"
open = "5"
ratatui = "*"
reqwest = { version = "0.12", default-features = false, features = ["blocking", "rustls-tls"] }
rusqlite = { version = "*", features = ["bundled"] }
scraper = "*"
serde = { version = "1", features = ["derive"] }
serde_json = "1"
url = "2"
