[package]
name = "wrangler"
version = "0.1.0"
edition = "2021"
publish = false

[dependencies]
failure = "0.1"
ignore = "0.4"
log = "0.4"
notify = "4"
serde_json = "1"
