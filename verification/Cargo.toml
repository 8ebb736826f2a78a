[package]
name = "backend"
version = "0.1.0"
edition = "2021"
publish = false

[dependencies]
argon2 = { version = "=0.5.3", features = ["std"] }
axum = "=0.8.9"
chrono = "=0.4.45"
dotenv = "=0.15.0"
futures = "=0.3.34"
hyper = "=1.12.0"
jsonwebtoken = "=9.3.1"
lazy_static = "=1.5.1"
mongodb = "=3.9.1"
reqwest = { version = "=0.12.28", default-features = false, features = ["json", "rustls-tls"] }
serde = { version = "=1.0.229", features = ["derive"] }
serde_json = { version = "=1.0.154", features = ["preserve_order"] }
tokio = { version = "=1.54.1", features = ["full"] }
tower = "=0.5.3"
tower-cookies = "=0.11.0"
validator = { version = "=0.20.0", features = ["derive"] }
