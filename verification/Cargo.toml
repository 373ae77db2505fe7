[package]
name = "battlesnake"
version = "0.1.0"
edition = "2021"
publish = false

[dependencies]
dashmap = "*"
color-eyre = "*"
tokio = { version = "*", features = ["macros", "rt-multi-thread"] }
tracing = "*"
tracing-subscriber = { version = "*", features = ["env-filter"] }
