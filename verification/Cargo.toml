[package]
name = "pulse"
version = "0.1.0"
edition = "2021"
publish = false

[dependencies]
url = "2"
tonic = "0.12"
serde = { version = "1", features = ["derive"] }
serde_json = "1"
figment = { version = "0.10", features = ["toml", "env"] }
opentelemetry = "0.28"
opentelemetry_sdk = "0.28"
opentelemetry-otlp = { version = "0.28", default-features = false, features = ["grpc-tonic", "http-proto", "trace", "metrics", "logs"] }
opentelemetry-appender-log = "0.28"
opentelemetry-semantic-conventions = "0.28"
tracing = "0.1"
tracing-subscriber = { version = "0.3", features = ["env-filter"] }
tracing-opentelemetry = "0.29"
log = "0.4"
env_logger = "0.11"
log4rs = "1"
once_cell = "1"
thiserror = "2"
anyhow = "1"
duration-str = "*"
