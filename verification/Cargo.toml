[package]
name = "scraper"
version = "0.1.0"
edition = "2021"
publish = false

[dependencies]
async-trait = "0.1"
eyre = "0.6"
tokio = { version = "1", features = ["rt", "sync"] }
tracing = "0.1"
