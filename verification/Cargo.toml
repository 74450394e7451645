[package]
name = "order-pipeline"
version = "0.1.0"
edition = "2021"
publish = false

[dependencies]
futures = "0.3"
serde = { version = "1", features = ["derive"] }
temporalio-client = "=0.7.0"
temporalio-common = "=0.7.0"
temporalio-macros = "=0.7.0"
temporalio-sdk = "=0.7.0"
temporalio-workflow = "=0.7.0"
tokio = { version = "1", features = ["macros", "rt-multi-thread", "sync", "time"] }
tracing = "0.1"
tracing-subscriber = { version = "0.3", features = ["env-filter"] }
