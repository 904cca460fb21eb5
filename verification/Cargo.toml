[package]
name = "contact_relay"
version = "0.1.0"
edition = "2021"
publish = false

[dependencies]
actix-cors = "*"
actix-web = "*"
chrono = "=0.4.45"
dotenv = "=0.15.0"
lettre = "=0.11.23"
nanoid = "=0.5.0"
serde = { version = "=1.0.229", features = ["derive"] }
tokio = { version = "=1.53.2", features = ["sync", "rt-multi-thread", "macros"] }
validator = "=0.21.0"
