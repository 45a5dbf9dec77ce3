[package]
name = "transform_service"
version = "0.1.0"
edition = "2021"
publish = false

[dependencies]
axum = "0.7"
num_cpus = "1"
rayon = "1"
serde = { version = "1", features = ["derive"] }
serde_json = "1"
tokio = { version = "1", features = ["full"] }
tower-http = { version = "0.5", features = ["cors"] }
tracing = "0.1"
tracing-subscriber = "0.3"
