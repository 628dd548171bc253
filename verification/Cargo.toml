[package]
name = "weather_underground"
version = "0.1.0"
edition = "2021"
publish = false

[dependencies]
serde = { version = "1", features = ["derive"] }
serde_json = "1"
reqwest = { version = "0.12", default-features = false, features = ["gzip", "cookies", "rustls-tls", "http2"] }
tokio = { version = "1", features = ["full"] }
log = "0.4"
env_logger = "*"
influx_db_client = "*"
