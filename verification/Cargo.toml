[package]
name = "polymarket_arbitrage_bot"
version = "0.1.0"
edition = "2021"
publish = false

[dependencies]
anyhow = "1"
chrono = "0.4"
chrono-tz = "*"
clap = { version = "4", features = ["derive"] }
env_logger = "*"
futures-util = "0.3"
log = "0.4"
reqwest = { version = "*", default-features = false, features = ["json"] }
rust_decimal = "1"
serde = { version = "1", features = ["derive"] }
serde_json = "1"
tokio = { version = "1", features = ["rt-multi-thread", "macros", "time", "sync"] }
tokio-tungstenite = { version = "*", default-features = false, features = ["connect"] }
url = "2"
