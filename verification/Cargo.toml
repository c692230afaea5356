[package]
name = "fastly-opentelemetry-exporter"
version = "0.1.0"
edition = "2021"
publish = false

[dependencies]
fastly = "*"
futures-util = "*"
opentelemetry = "*"
opentelemetry-proto = { version = "*", features = ["gen-tonic-messages", "trace", "logs", "metrics", "with-serde"] }
opentelemetry_sdk = { version = "*", features = ["trace", "logs", "metrics"] }
opentelemetry-semantic-conventions = { version = "*", features = ["semconv_experimental"] }
serde_json = "*"
thiserror = "*"
tracing = "*"
tracing-opentelemetry = "*"
tracing-subscriber = "*"
