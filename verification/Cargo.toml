[package]
name = "amplifier-relayer"
version = "0.1.0"
edition = "2021"
publish = false

[dependencies]
chrono = { version = "=0.4.45", default-features = false, features = ["std", "clock"] }
serde_json = "=1.0.154"
tokio-retry = "=0.3.2"
url = "=2.5.8"
opentelemetry = "=0.29.1"
borsh = "=1.8.1"
tokio = { version = "=1.54.1", features = ["rt-multi-thread", "macros", "net", "time"] }
axum = "=0.8.9"
tokio-util = "=0.7.20"
serde = { version = "=1.0.229", features = ["derive"] }
eyre = "=0.6.14"
color-eyre = "=0.6.5"
async-trait = "=0.1.92"
config = { version = "=0.15.27", default-features = false, features = ["toml"] }
ctrlc = "=3.5.2"
tracing = "=0.1.44"
tracing-subscriber = { version = "=0.3.23", features = ["env-filter", "json"] }
tracing-appender = "=0.2.5"
tracing-error = "=0.2.1"
tracing-opentelemetry = "=0.30.0"
opentelemetry_sdk = "=0.29.0"
opentelemetry-otlp = { version = "=0.29.0", default-features = false, features = ["trace", "metrics", "grpc-tonic", "http-proto", "reqwest-client"] }
opentelemetry-resource-detectors = "=0.8.0"
opentelemetry-semantic-conventions = "=0.29.0"
opentelemetry-system-metrics = "=0.4.2"
reqwest = { version = "=0.12.28", default-features = false, features = ["rustls-tls", "http2"] }
rustls = { version = "=0.23.46", default-features = false, features = ["ring", "std", "tls12"] }
redact = "=0.1.11"
simd-json = "=0.14.3"
