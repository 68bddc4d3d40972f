[package]
name = "hestia_nodes"
version = "0.1.0"
edition = "2021"
publish = false

[dependencies]
esp-idf-svc = "*"
log = "0.4"
anyhow = "1.0"

[dev-dependencies]
serde_json = "1.0"
