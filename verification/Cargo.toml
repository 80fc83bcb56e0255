[package]
name = "verdantgolem"
version = "0.1.0"
edition = "2021"
publish = false

[dependencies]
uuid = { version = "1", features = ["v3"] }
serde = { version = "1", features = ["derive"] }
serde_json = "1"
rand = "0.9"
