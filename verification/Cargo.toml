[package]
name = "character_sheet"
version = "0.1.0"
edition = "2021"
publish = false

[dependencies]
async-std = "1"
iced = "0.1"
serde = { version = "1", features = ["derive"] }
serde_json = "1"
