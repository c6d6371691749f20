[package]
name = "otlp_trace_client"
version = "0.1.0"
edition = "2021"
publish = false

[dependencies]
futures-core = "0.3"
opentelemetry = "0.22"
opentelemetry_sdk = { version = "0.22", features = ["trace"] }
opentelemetry-proto = { version = "0.5", features = ["gen-tonic", "trace"] }
tonic = { version = "0.11", features = ["transport", "gzip"] }

[dev-dependencies]
tokio = { version = "1", features = ["rt"] }
