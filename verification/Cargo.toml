[package]
name = "nomad_drain"
version = "0.1.0"
edition = "2021"
publish = false

[dependencies]
aws_lambda_events = { version = "=1.2.1", default-features = false, features = ["autoscaling"] }
base64 = "=0.23.1"
chrono = "=0.4.45"
env_logger = "=0.11.11"
envy = "=0.4.2"
futures = "=0.3.34"
lambda_runtime = "=1.5.0"
log = "=0.4.35"
reqwest = { version = "=0.13.5", default-features = false, features = ["blocking", "json", "query"] }
rusoto_autoscaling = "=0.48.0"
rusoto_core = "=0.48.0"
serde = { version = "=1.0.229", features = ["derive"] }
serde_json = "=1.0.154"
serde_urlencoded = "=0.7.1"
tokio = { version = "=1.54.1", features = ["rt-multi-thread"] }
url = "=2.5.8"
