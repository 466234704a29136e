[package]
name = "rdpkit"
version = "0.1.0"
edition = "2021"
publish = false

[dependencies]
md-5 = "=0.10.6"
toml = "=0.8.23"
serde = { version = "=1.0.229", features = ["derive"] }
serde_json = "=1.0.154"
dirs-next = "=2.0.0"
anyhow = "=1.0.104"
tokio = { version = "=1.54.1", features = ["io-util", "rt", "macros", "net"] }
tokio-tungstenite = "*"
futures-util = { version = "0.3", features = ["sink"] }
