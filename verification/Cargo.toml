[package]
name = "resource_harvest"
version = "0.1.0"
edition = "2021"
publish = false

[dependencies]
rand = "0.8"
reqwest = "0.11"
tokio = { version = "1", features = ["full"] }
glob = "0.3"
indicatif = "0.17"
