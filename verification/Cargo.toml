[package]
name = "k8s-p11-plugin"
version = "0.1.0"
edition = "2021"
publish = false

[dependencies]
clap = "3"
ctrlc = "3"
futures = "0.3"
futures-util = "0.3"
itertools = "0.10"
log = "0.4"
pretty_env_logger = "0.4"
prost = "0.11"
serde = { version = "1", features = ["derive"] }
serde_yaml = "0.9"
systemd-journal-logger = "0"
tokio = { version = "1", features = ["full"] }
tonic = "0.8"
tower-service = "0.3"
uuid = { version = "1", features = ["v4"] }
