[package]
name = "traced_fetch"
version = "0.1.0"
edition = "2021"
publish = false

[dependencies]
serde_json = "=1.0.151"
reqwest = { version = "=0.13.5", default-features = false }
tokio = { version = "=1.53.2", features = ["macros", "rt-multi-thread"] }
tracing = "=0.1.44"
tracing-subscriber = { version = "=0.3.23", features = ["env-filter", "fmt", "json"] }
tracing-opentelemetry = "=0.34.0"
opentelemetry = "=0.33.0"
opentelemetry-otlp = { version = "=0.33.0", features = ["grpc-tonic", "trace"] }
opentelemetry_sdk = "=0.33.0"
anyhow = "=1.0.104"
