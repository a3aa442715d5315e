[package]
name = "boa"
version = "0.1.0"
edition = "2021"
publish = false

[dependencies]
http = "1"
serde_json = "1"
rustc-hash = "2"
