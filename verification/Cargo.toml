[package]
name = "link_scraper"
version = "0.1.0"
edition = "2021"
publish = false

[dependencies]
error-stack = "0.3"
reqwest = { version = "0.11", features = ["blocking"] }
scraper = "0.16"
