[package]
name = "tempest"
version = "0.1.0"
edition = "2021"
publish = false

[dependencies]
serde_json = "*"
num-traits = "*"
rusqlite = { version = "*", features = ["bundled"] }
