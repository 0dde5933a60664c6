[package]
name = "xerophi"
version = "0.1.0"
edition = "2021"
publish = false

[dependencies]
rust-argon2 = "*"
bson = "2"
chrono = "0.4"
mongodb = { version = "3", features = ["sync"] }
rocket = { version = "0.5", features = ["json"] }
serde = { version = "1", features = ["derive"] }
serde_json = "1"
