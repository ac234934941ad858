[package]
name = "gitie"
version = "0.1.0"
edition = "2021"
publish = false

[dependencies]
dirs = "*"
http = "*"
rand = "*"
reqwest = { version = "*", features = ["json"] }
serde = { version = "*", features = ["derive"] }
serde_json = "*"
tokio = { version = "*", features = ["rt-multi-thread"] }
toml = "*"
tracing = "*"
tracing-subscriber = "*"
