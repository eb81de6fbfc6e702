[package]
name = "group_browser"
version = "0.1.0"
edition = "2021"
publish = false

[dependencies]
anyhow = "1"
chrono = "0.4"
copypasta = "0.10"
crossterm = "0.27"
dotenvy = "0.15"
html2text = "*"
oauth2 = { version = "4", default-features = false, features = ["reqwest"] }
ratatui = "0.26"
reqwest = { version = "0.11", default-features = false, features = ["json"] }
scraper = "*"
serde = { version = "1", features = ["derive"] }
serde_json = "1"
tokio = { version = "1", features = ["macros", "rt-multi-thread"] }
