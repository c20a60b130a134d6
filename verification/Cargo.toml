[package]
name = "parrot_api"
version = "0.1.0"
edition = "2021"
publish = false

[dependencies]
anyhow = "*"
aws-config = "*"
aws_lambda_events = "*"
aws-sdk-s3 = "*"
aws-sdk-sqs = "*"
bytes = "*"
lambda_http = "*"
lambda_runtime = "*"
reqwest = { version = "*", default-features = false, features = ["json", "multipart", "rustls-tls"] }
serde = { version = "*", features = ["derive"] }
serde_json = "*"
slug = "*"
thiserror = "*"
tokio = { version = "*", features = ["macros", "rt-multi-thread"] }
