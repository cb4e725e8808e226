[package]
name = "protocols"
version = "0.1.0"
edition = "2021"
publish = false

[dependencies]
axum = { version = "=0.8.9", features = ["ws"] }
futures-util = "=0.3.34"
jsonrpsee = { version = "=0.26.1", features = ["server"] }
rmcp = { version = "=3.8.0", features = ["server", "client", "macros", "transport-io", "transport-child-process", "transport-streamable-http-server", "transport-streamable-http-client-reqwest", "reqwest"] }
serde = { version = "=1.0.229", features = ["derive"] }
serde_json = "=1.0.154"
tokio = { version = "=1.54.1", features = ["full"] }
tokio-stream = { version = "=0.1.19", features = ["sync"] }
tonic = "=0.14.9"
tonic-prost = "0.14"
prost = "=0.14.4"
