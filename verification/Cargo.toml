[package]
name = "syncflo_browser"
version = "0.1.0"
edition = "2021"
publish = false

[dependencies]
anyhow = "1"
base64 = "0.21"
env_logger = "0.10"
log = "0.4"
scraper = "*"
serde = { version = "1", features = ["derive"] }
serde_json = "1"
url = "2"
urlencoding = "2"
wry = "0.24"
