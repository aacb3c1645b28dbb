[package]
name = "foodpanda_etl"
version = "0.1.0"
edition = "2021"
publish = false

[dependencies]
serde = { version = "1", features = ["derive"] }
serde_json = "1"
chrono = { version = "0.4", features = ["serde"] }
rand = "0.9"
http = "1"
arrow = { version = "*", default-features = false }
parquet = { version = "*", default-features = false, features = ["arrow"] }
tokio = { version = "1", features = ["full"] }
aws-sdk-s3 = { version = "1", default-features = false, features = ["rt-tokio", "behavior-version-latest"] }
aws-smithy-runtime-api = "1"
thiserror = "*"
tracing = "0.1"
tracing-subscriber = { version = "0.3", features = ["env-filter", "json", "time"] }
tempfile = "3"
anyhow = "1"
config = { version = "*", default-features = false, features = ["yaml"] }
