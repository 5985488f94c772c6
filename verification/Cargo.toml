[package]
name = "remodance"
version = "0.1.0"
edition = "2021"
publish = false

[dependencies]
chrono = "0.4"
whoami = "1"
serde = { version = "1", features = ["derive"] }
serde_json = "1"
reqwest = { version = "0.12", default-features = false, features = ["blocking"] }
user-idle = "*"
