[package]
name = "mobius"
version = "0.1.0"
edition = "2021"
publish = false

[dependencies]
pico-args = "*"
serde = { version = "1", features = ["derive"] }
serde_json = "1"
tokio = { version = "1", features = ["full"] }
reqwest = { version = "*", features = ["json"] }
tokio-tungstenite = "*"
futures-util = "*"
crossterm = "*"
ratatui = "*"
scraper = "*"
readabilityrs = "*"
html-to-markdown-rs = "*"
urlencoding = "*"
