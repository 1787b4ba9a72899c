[package]
name = "blockchain_gateway"
version = "0.1.0"
edition = "2021"
publish = false

[dependencies]
base64 = "=0.13.1"
serde = { version = "=1.0.229", features = ["derive"] }
serde_json = "=1.0.154"
futures = "=0.1.31"
hyper = "=0.12.36"
hyper-tls = "=0.3.2"
tokio = "=0.1.22"
lapin-async = "=0.13.0"
lapin-futures = "=0.13.0"
clap = "=2.34.0"
config = "=0.9.3"
log = "=0.4.34"
env_logger = "=0.6.2"
