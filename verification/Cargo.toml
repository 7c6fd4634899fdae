[package]
name = "rover_core"
version = "0.1.0"
edition = "2021"
publish = false

[dependencies]
rppal = "*"
tokio = { version = "*", features = ["full"] }
system_shutdown = "*"
serde = { version = "*", features = ["derive"] }
serde_json = "*"
serde_repr = "*"
futures = "*"
tokio-tungstenite = "*"
url = "*"
