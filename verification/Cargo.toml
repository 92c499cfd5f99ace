[package]
name = "prompt_gateway"
version = "0.1.0"
edition = "2021"
publish = false

[dependencies]
serde = { version = "1", features = ["derive"] }
serde_json = "1"
serde_yaml = "0.9"
http = "*"
log = "0.4"
proxy-wasm = "*"
