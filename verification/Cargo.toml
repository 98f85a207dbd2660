[package]
name = "updater"
version = "0.1.0"
edition = "2021"
publish = false

[dependencies]
md-5 = "*"
hex = "*"
url = "*"
serde = { version = "*", features = ["derive"] }
serde_json = "*"
chrono = "*"
tokio = { version = "*", features = ["rt-multi-thread", "macros"] }
reqwest = { version = "*", default-features = false }
trauma = "*"
