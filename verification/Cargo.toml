[package]
name = "radical"
version = "0.1.0"
edition = "2021"
publish = false

[dependencies]
anyhow = "=1.0.104"
aws-config = { version = "=1.13.0", default-features = false, features = ["behavior-version-latest", "rt-tokio", "rustls"] }
aws-sdk-dynamodb = { version = "=1.136.0", default-features = false, features = ["behavior-version-latest", "rt-tokio", "rustls"] }
axum = "=0.7.9"
base64 = "=0.22.1"
lambda-extension = "=0.11.0"
lambda_http = { version = "=0.14.0", default-features = false, features = ["apigw_http", "tracing"] }
reqwest = { version = "=0.12.28", default-features = false, features = ["json"] }
serde = { version = "=1.0.229", features = ["derive"] }
serde_bytes = "0.11"
serde_json = "=1.0.154"
thiserror = "=1.0.69"
tokio = { version = "=1.54.1", features = ["macros", "net", "rt-multi-thread", "sync"] }
tower = "=0.4.13"
tracing = "=0.1.44"
tracing-subscriber = "=0.3.23"
uuid = { version = "=1.29.0", features = ["v4", "serde"] }
wasmtime = { version = "=27.0.0", default-features = false, features = ["async", "runtime", "std"] }
