[package]
name = "gossip_service"
version = "0.1.0"
edition = "2021"
publish = false

[dependencies]
async-trait = "0.1"
bytes = "1"
futures = "0.3"
log = "0.4"
parity-scale-codec = "3"
sc-utils = "*"
tokio = { version = "1", features = ["macros", "rt", "time"] }
