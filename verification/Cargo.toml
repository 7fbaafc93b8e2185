[package]
name = "datalake_web_api"
version = "0.1.0"
edition = "2021"
publish = false

[dependencies]
anyhow = "=1.0.104"
async_zip = "=0.0.19"
aws-config = { version = "=1.13.0", default-features = false, features = ["rt-tokio", "behavior-version-latest"] }
aws-sdk-s3 = { version = "=1.157.0", default-features = false, features = ["rt-tokio", "behavior-version-latest"] }
aws-creds = { version = "=0.40.0", default-features = false }
axum = { version = "=0.7.9", default-features = false, features = ["json", "tokio", "http1"] }
color-eyre = { version = "=0.6.5", default-features = false }
datafusion = { version = "=55.2.0", default-features = false, features = ["parquet"] }
dotenvy = "=0.15.7"
object_store = { version = "=0.13.2", features = ["aws"] }
serde = { version = "=1.0.229", features = ["derive"] }
thiserror = "=1.0.69"
tokio = { version = "=1.54.1", features = ["macros", "rt-multi-thread", "net"] }
url = "=2.5.8"
