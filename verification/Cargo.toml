[package]
name = "relic_node"
version = "0.1.0"
edition = "2021"
publish = false

[dependencies]
anyhow = "1"
async-trait = "0.1"
embedded-hal = "1.0"
embedded-svc = "0.27"
esp-idf-hal = "0.43"
esp-idf-svc = "0.48"
esp-idf-sys = "0.34"
log = "0.4"
toml-cfg = "0.1"
