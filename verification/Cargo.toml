[package]
name = "chess_match"
version = "0.1.0"
edition = "2021"
publish = false

[dependencies]
axum = { version = "0.6", features = ["ws"] }
chrono = "0.4"
dotenv = "0.15"
env_logger = "0.10"
futures = "0.3"
http = "0.2"
hyper = { version = "0.14", features = ["full"] }
jsonwebtoken = "8"
log = "0.4"
mysql = "24"
pleco = "0.5"
redis = { version = "0.23", features = ["tokio-comp", "aio"] }
redis-async = "0.16"
redis-derive = "0.1"
reqwest = { version = "0.11", features = ["json"] }
serde = { version = "1", features = ["derive"] }
serde_json = "1"
tokio = { version = "1", features = ["full"] }
tower-http = { version = "0.4", features = ["cors"] }
uuid = { version = "1", features = ["v4"] }
