[package]
name = "omvarlden-spider"
version = "0.1.0"
edition = "2021"
publish = false

[dependencies]
anyhow = "=1.0.104"
clap = { version = "=4.6.7", features = ["derive"] }
flate2 = "=1.1.10"
reqwest = { version = "=0.12.28", features = ["gzip"] }
scraper = "=0.29.0"
serde_json = { version = "=1.0.154", features = ["preserve_order"] }
tokio = { version = "=1.54.1", features = ["fs", "macros", "rt-multi-thread", "signal", "time"] }
tracing = "=0.1.44"
tracing-subscriber = { version = "=0.3.23", features = ["env-filter", "json"] }
