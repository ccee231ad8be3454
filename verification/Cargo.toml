[package]
name = "rinha_bank"
version = "0.1.0"
edition = "2021"
publish = false

[dependencies]
chrono = { version = "0.4", features = ["serde"] }
serde = { version = "1", features = ["derive"] }
serde_json = "1"
postgres = { version = "0.19", features = ["with-chrono-0_4"] }
dotenv = "0.15"
