[package]
name = "aws_push_code"
version = "0.1.0"
edition = "2021"
publish = false

[dependencies]
bytes = "0.4"
futures = "0.1"
futures-fs = "0.0.5"
git2 = { version = "0.10", default-features = false }
lambda_runtime = "0.2"
rusoto_core = { version = "0.42", default-features = false, features = ["rustls"] }
rusoto_s3 = { version = "0.42", default-features = false, features = ["rustls"] }
rusoto_secretsmanager = { version = "0.42", default-features = false, features = ["rustls"] }
rusoto_sqs = { version = "0.42", default-features = false, features = ["rustls"] }
serde = { version = "1", features = ["derive"] }
serde_json = "1"
tempfile = "3"
walkdir = "2"
zip = { version = "0.5", default-features = false, features = ["deflate"] }
