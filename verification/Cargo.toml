[package]
name = "rs_tcp"
version = "0.1.0"
edition = "2021"
publish = false

[dependencies]
rand = "0.8"
serde = { version = "1", features = ["derive"] }
serde_json = "1"
tokio = { version = "1", features = ["full"] }
clap = { version = "4", features = ["cargo"] }
env_logger = "*"
log = "0.4"
anyhow = "1"
