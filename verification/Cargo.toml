[package]
name = "space_email_scraper"
version = "0.1.0"
edition = "2021"
publish = false

[dependencies]
regex = "=1.13.1"
chrono = "=0.4.45"
structopt = "=0.3.26"
space_email_api = "=0.3.2"
tokio = { version = "1", features = ["rt"] }
