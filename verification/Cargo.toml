[package]
name = "jlic"
version = "0.1.0"
edition = "2021"
publish = false

[dependencies]
anyhow = "=1.0.104"
chrono = "=0.4.45"
clap = { version = "=4.6.7", features = ["cargo"] }
env_logger = "=0.11.11"
log = "=0.4.34"
serde = "=1.0.229"
toml = "=0.8.23"
