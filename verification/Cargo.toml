[package]
name = "tank_board"
version = "0.1.0"
edition = "2021"
publish = false

[dependencies]
openssl = "0.10"
serde = { version = "1", features = ["derive"] }
serde_json = "1"
