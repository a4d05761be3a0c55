[package]
name = "axum_otel"
version = "0.1.0"
edition = "2021"
publish = false

[dependencies]
uuid = { version = "*", features = ["v4"] }
http = "*"
axum = "*"
tracing = "*"
tracing-opentelemetry = "*"
opentelemetry = "*"
opentelemetry-http = "*"
tower-http = { version = "*", features = ["trace"] }
tower-layer = "*"
tower-service = "*"
futures-util = "*"
