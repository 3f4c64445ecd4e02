[package]
name = "opentelemetry-otlp"
version = "0.11.0"
edition = "2021"
publish = false

[dependencies]
async-trait = "0.1"
futures = "0.3"
grpcio = "0.12"
http = "=0.2.12"
hyper = "=0.14.32"
opentelemetry = { version = "=0.19.0", features = ["trace"] }
opentelemetry-http = "=0.8.0"
opentelemetry-proto = { version = "=0.2.0", features = ["gen-tonic", "traces"] }
prost = "=0.11.9"
protobuf = "2"
tonic = { version = "=0.8.3", features = ["transport", "tls"] }

[dev-dependencies]
tokio = { version = "1", features = ["rt", "time"] }
