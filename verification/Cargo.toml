[package]
name = "hyrax"
version = "0.1.0"
edition = "2021"
publish = false

[dependencies]
anyhow = "1"
chrono = "0.4"
clap = { version = "4", features = ["derive"] }
git2 = "*"
inquire = "*"
log = "0.4"
owo-colors = "*"
serde = { version = "1", features = ["derive"] }
tempfile = "3"
toml = "*"
walkdir = "2"
