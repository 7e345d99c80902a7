[package]
name = "autometrics"
version = "0.1.0"
edition = "2021"
publish = false

[dependencies]
opentelemetry_api = "0.20"
prometheus = { version = "0.13", default-features = false }
tracing = "0.1"
tracing-opentelemetry = { version = "0.21", default-features = false }

[dev-dependencies]
opentelemetry_sdk = "0.20"
tracing-subscriber = { version = "0.3", default-features = false, features = ["registry", "std"] }
