[package]
name = "aktualizr_info"
version = "0.1.0"
edition = "2021"
publish = false

[dependencies]
clap = "4"
env_logger = "0.11"
hex = "0.4"
log = "0.4"
openssl = "0.10"
ring = "0.17"
rusqlite = "*"
serde_json = "1"
