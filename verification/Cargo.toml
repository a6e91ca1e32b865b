[package]
name = "query_service"
version = "0.1.0"
edition = "2021"
publish = false

[dependencies]
anyhow = "=1.0.104"
async-std = "=1.13.2"
dotenv = "=0.15.0"
pretty_env_logger = "=0.5.0"
serde_json = "=1.0.154"
sqlx = { version = "=0.8.6", default-features = false, features = ["runtime-async-std", "postgres"] }
tide = "=0.16.0"
