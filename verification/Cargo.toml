[package]
name = "clewdr"
version = "0.1.0"
edition = "2021"
publish = false

[dependencies]
async-stream = "=0.3.6"
async-trait = "=0.1.92"
axum = "=0.8.9"
bytes = "=1.12.1"
colored = "=3.1.1"
eventsource-stream = "=0.2.3"
futures = "=0.3.34"
http = "=1.5.0"
serde = { version = "=1.0.229", features = ["derive"] }
serde_json = "=1.0.154"
tokio = { version = "=1.54.1", features = ["sync", "rt", "macros"] }
tracing = "=0.1.44"
url = "=2.5.8"
