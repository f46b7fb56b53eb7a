[package]
name = "sentinel"
version = "0.1.1"
edition = "2021"
publish = false

[dependencies]
chrono = { version = "0.4", features = ["serde"] }
uuid = { version = "1", features = ["v4"] }
hickory-proto = "*"
serde = { version = "1", features = ["derive"] }
serde_json = "1"
toml = "*"
directories = "*"
miette = "*"
crossterm = "*"
tokio = { version = "1", features = ["full"] }
tracing = "*"
tracing-subscriber = { version = "*", features = ["env-filter"] }
