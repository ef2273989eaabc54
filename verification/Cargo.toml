[package]
name = "tracepipe"
version = "0.1.0"
edition = "2021"
publish = false

[dependencies]
opentelemetry = "*"
opentelemetry_sdk = "*"
opentelemetry-otlp = "*"
tokio = { version = "*", features = ["rt-multi-thread", "macros", "time"] }
tracing = "*"
tracing-opentelemetry = "*"
tracing-subscriber = { version = "*", features = ["env-filter", "json", "fmt"] }
