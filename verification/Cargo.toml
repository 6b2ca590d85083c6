[package]
name = "git_anonymize"
version = "0.1.0"
edition = "2021"
publish = false

[dependencies]
tempfile = "3"
anyhow = "1"
clap = { version = "4", features = ["derive"] }
env_logger = "0.11"
log = "0.4"
