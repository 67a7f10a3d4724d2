[package]
name = "shortlinks"
version = "0.1.0"
edition = "2021"
publish = false

[dependencies]
nanoid = "*"
aws-config = "*"
aws-sdk-dynamodb = "*"
axum = "*"
axum-aws-lambda = "*"
lambda_http = "*"
serde = { version = "*", features = ["derive"] }
tokio = { version = "*", features = ["macros", "rt-multi-thread", "net"] }
tower = "*"
