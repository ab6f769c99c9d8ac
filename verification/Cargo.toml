[package]
name = "mc_worker"
version = "0.1.0"
edition = "2021"
publish = false

[dependencies]
shiplift = { version = "0.6", default-features = false }
tokio = "0.1"
rouille = "3"
rusqlite = "*"
serde = { version = "1", features = ["derive"] }
log = "0.4"
env_logger = "*"
