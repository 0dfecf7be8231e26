[package]
name = "nova_opensearch"
version = "0.1.0"
edition = "2021"
publish = false

[dependencies]
async-trait = "0.1"
opensearch = "2"
serde = { version = "1", features = ["derive"] }
serde_json = { version = "1", features = ["raw_value"] }
serde_yaml = "0.9"
thiserror = "2"
tokio = { version = "1", features = ["time"] }
tracing = "0.1"
url = "2"
