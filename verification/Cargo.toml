[package]
name = "weekly_rulesets"
version = "0.1.0"
edition = "2021"
publish = false

[dependencies]
rand = { version = "0.8", features = ["small_rng"] }
chrono = "0.4"
serde = { version = "1", features = ["derive"] }
serde_yaml = "0.8"
serde_json = "1"
