[package]
name = "health_events"
version = "0.1.0"
edition = "2021"
publish = false

[dependencies]
aws-config = "1"
aws-sdk-health = "1"
aws-smithy-types = "1"
aws-types = "1"
chrono = "0.4"
clap = { version = "4", features = ["derive"] }
csv = "1"
tokio = { version = "1", features = ["macros", "rt-multi-thread"] }
