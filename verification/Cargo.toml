[package]
name = "domain-watcher"
version = "0.1.0"
edition = "2021"
publish = false

[dependencies]
reqwest = "*"
tokio = { version = "*", features = ["full"] }
futures = "*"
serde = { version = "*", features = ["derive"] }
serde_json = "*"
log = "*"
env_logger = "*"
rdkafka = "*"
uuid = { version = "*", features = ["v4"] }
dotenv = "*"
envy = "*"
bytes = "*"
