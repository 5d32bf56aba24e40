[package]
name = "action_pull_request_merge"
version = "2.0.0"
edition = "2021"
publish = false

[dependencies]
regex = "=1.13.1"
octocrab = "=0.47.1"
tokio = { version = "=1.54.1", features = ["rt-multi-thread", "macros"] }
serde = { version = "=1.0.229", features = ["derive"] }
serde_json = "=1.0.154"
anyhow = "=1.0.104"
