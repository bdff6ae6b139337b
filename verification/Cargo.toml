[package]
name = "liquidation_engine"
version = "0.1.0"
edition = "2021"
publish = false

[dependencies]
rand = "0.8"
tokio = { version = "1", features = ["full"] }
actix-web = "4"
actix-cors = "*"
actix-ws = "*"
futures = "0.3"
serde = { version = "1", features = ["derive"] }
serde_json = "1"
sqlx = { version = "*", default-features = false, features = ["runtime-tokio", "sqlite"] }
chrono = "0.4"
anyhow = "1"
log = "0.4"
env_logger = "*"
dotenv = "0.15"
borsh = { version = "*", features = ["derive"] }
