[package]
name = "feroxbuster"
version = "0.1.0"
edition = "2021"
publish = false

[dependencies]
regex = "=1.13.1"
console = "=0.16.6"
clap = { version = "=3.2.25", features = ["cargo"] }
indicatif = "=0.15.0"
tokio = { version = "=1.54.1", features = ["sync", "rt", "macros"] }
futures = "=0.3.34"
anyhow = "=1.0.104"
log = "0.4"
