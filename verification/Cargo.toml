[package]
name = "elements_core"
version = "0.1.0"
edition = "2021"
publish = false

[dependencies]
bitcoin_hashes = "0.9"
hex = "0.4"
serde = "1"
