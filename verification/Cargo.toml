[package]
name = "api"
version = "0.1.0"
edition = "2021"
publish = false

[dependencies]
actix-web = "4"
chrono = { version = "0.4", features = ["serde"] }
env_logger = "0.11"
moka = { version = "0.12", features = ["future"] }
reqwest = "0.12"
serde = { version = "1", features = ["derive"] }
serde_json = "1"
tokio = { version = "1", features = ["rt", "time"] }
tracing = { version = "0.1", features = ["log"] }

[dev-dependencies]
regex = "1"
