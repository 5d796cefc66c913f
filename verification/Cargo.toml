[package]
name = "warehouses"
version = "0.1.0"
edition = "2021"
publish = false

[dependencies]
bb8 = "0.9"
bb8-postgres = "0.9"
chrono = "0.4"
config = { version = "0.15", default-features = false, features = ["toml"] }
env_logger = "0.11"
hyper = { version = "0.14", features = ["server", "http1", "tcp"] }
log = "0.4"
serde = { version = "1", features = ["derive"] }
serde_json = "=1.0.154"
tokio = { version = "1", features = ["rt", "net"] }
tokio-postgres = { version = "0.7", features = ["with-uuid-1"] }
uuid = { version = "=1.29.0", features = ["v4", "serde"] }
