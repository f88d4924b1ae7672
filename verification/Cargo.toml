[package]
name = "intend_hooks"
version = "0.1.0"
edition = "2021"
publish = false

[dependencies]
chrono = "*"
serde = { version = "*", features = ["derive"] }
serde_json = "*"
actix-web = "*"
actix-cors = "*"
firestore = "*"
futures = "*"
dotenv = "*"
env_logger = "*"
log = "*"
