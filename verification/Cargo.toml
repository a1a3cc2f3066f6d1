[package]
name = "darksky"
version = "0.9.0"
edition = "2021"
publish = false

[dependencies]
futures = "0.3"
http = "1"
serde = { version = "1", features = ["derive"] }
serde_json = "1"
