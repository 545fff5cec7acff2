[package]
name = "task_repo"
version = "0.1.0"
edition = "2021"
publish = false

[dependencies]
uuid = { version = "*", features = ["v4"] }
serde = { version = "*", features = ["derive"] }
actix-web = "*"
aws-config = "*"
aws-sdk-dynamodb = "*"
dotenv = "*"
env_logger = "*"
log = "*"
