[package]
name = "flo-otel"
version = "0.1.0"
edition = "2021"
publish = false

[dependencies]
opentelemetry = "0.29"
opentelemetry_sdk = "0.29"
opentelemetry-otlp = "0.29"
opentelemetry-semantic-conventions = { version = "0.29", features = ["semconv_experimental"] }
tonic = "0.12"
tracing = "0.1"
tracing-core = "0.1"
tracing-opentelemetry = "0.30"
tracing-subscriber = "0.3"
