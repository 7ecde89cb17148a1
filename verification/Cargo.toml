[package]
name = "audit_s3_worm"
version = "0.1.0"
edition = "2021"
publish = false

[dependencies]
aws-config = { version = "1", default-features = false, features = ["default-https-client", "rt-tokio"] }
aws-credential-types = "1"
aws-sdk-s3 = { version = "1", default-features = false, features = ["default-https-client", "rt-tokio"] }
chrono = "=0.4.45"
hex = "=0.4.3"
metrics = "0.24"
serde = { version = "1", features = ["derive"] }
serde_json = "1"
sha2 = "=0.10.9"
tokio = { version = "1", features = ["rt-multi-thread", "time"] }
tracing = "0.1"
