[package]
name = "reportify"
version = "0.1.0"
edition = "2021"
publish = false

[dependencies]
sha2 = "0.10"
hex = "0.4"
tracing = "0.1"
tracing-error = "0.2"
tracing-subscriber = { version = "0.3", features = ["env-filter"] }
console = "0.15"
clap = { version = "4", features = ["derive"] }
serde = "1"
opentelemetry = "0.30"
opentelemetry_sdk = "0.30"
opentelemetry-otlp = "0.30"
opentelemetry-appender-tracing = "0.30"
tracing-opentelemetry = "0.31"
