[package]
name = "lishuuro"
version = "0.1.0"
edition = "2021"
publish = false

[dependencies]
rand = "=0.10.3"
base64 = "=0.23.1"
sha2 = "=0.11.0"
chrono = "=0.4.45"
serde = { version = "=1.0.229", features = ["derive"] }
serde_json = "=1.0.151"
tokio = { version = "=1.53.2", features = ["full"] }
shuuro = { version = "=1.1.8", features = ["shuuro12", "shuuro8", "shuuro6"] }
