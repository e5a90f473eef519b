[package]
name = "trebek"
version = "0.1.0"
edition = "2021"
publish = false

[dependencies]
lapin = "0.34"
rand = "0.7"
serde = { version = "1", features = ["derive"] }
serde_json = "1"
serenity = "0.8"
