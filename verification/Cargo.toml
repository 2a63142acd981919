[package]
name = "hq"
version = "0.1.0"
edition = "2021"
publish = false

[dependencies]
anyhow = "=1.0.104"
scraper = "=0.27.0"
selectors = "=0.38.0"
structopt = "=0.3.26"
