[package]
name = "goliath"
version = "0.1.0"
edition = "2021"
publish = false

[dependencies]
tinyvec = "=1.13.3"
image = { version = "=0.25.10", default-features = false, features = ["png"] }
bitcode = { version = "=0.6.9", features = ["serde"] }
bytes = "=1.12.1"
serde = { version = "=1.0.229", features = ["derive"] }
serde_json = "=1.0.154"
thiserror = "=2.0.21"
tokio = { version = "=1.54.1", features = ["full"] }
tokio-tungstenite = "=0.30.0"
futures-util = "=0.3.34"
log = "=0.4.34"
env_logger = "=0.11.11"
rppal = "=0.22.1"
jetgpio = "=0.1.2"
