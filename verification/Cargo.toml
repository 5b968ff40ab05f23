[package]
name = "listing_crawler"
version = "0.1.0"
edition = "2021"
publish = false

[dependencies]
scraper = "*"
rocket = { version = "0.5", features = ["json"] }
chromiumoxide = "*"
tokio = { version = "1", features = ["rt"] }
fern = "0.6"
log = "0.4"
chrono = "0.4"
