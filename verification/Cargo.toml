[package]
name = "sorcery_engine"
version = "0.1.0"
edition = "2021"
publish = false

[dependencies]
hecs = "*"
indexmap = "2"
once_cell = "1"
rand = "0.8"
serde = { version = "1", features = ["derive"] }
serde_json = "1"
