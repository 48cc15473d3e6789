[package]
name = "mongo_task_generator"
version = "0.1.0"
edition = "2021"
publish = false

[dependencies]
anyhow = "1"
async-trait = "0.1"
aws-config = "1"
aws-sdk-s3 = "1"
clap = { version = "4", features = ["derive"] }
rand = "0.8"
regex = "1"
serde = { version = "1", features = ["derive"] }
serde_json = "1"
serde_yaml = "0.9"
shellexpand = "3"
shrub-rs = "*"
tokio = { version = "1", features = ["full"] }
tracing = "0.1"
tracing-subscriber = { version = "0.3", features = ["json"] }
wait-timeout = "0.2"
yaml-rust = "0.4"
