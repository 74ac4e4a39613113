[package]
name = "agent_307"
version = "0.1.0"
edition = "2021"
publish = false

[dependencies]
anyhow = "1"
chrono = "0.4"
home = "*"
opencv = "*"
serde = { version = "1", features = ["derive"] }
serde_json = "1"
