[package]
name = "protin"
version = "0.1.0"
edition = "2021"
publish = false

[dependencies]
actix-cors = "0.7"
actix-governor = "0.8"
actix-multipart = "0.7"
actix-web = "4"
anyhow = "1"
aws-config = "1"
aws-sdk-s3 = "1"
base64 = "0.22"
diesel = { version = "2", features = ["postgres", "r2d2"] }
diesel_migrations = "2"
dotenvy = "0.15"
env_logger = "0.11"
log = "0.4"
rand = "0.9"
serde = { version = "1", features = ["derive"] }
tokio = { version = "1", features = ["full"] }
