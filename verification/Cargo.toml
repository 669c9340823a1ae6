[package]
name = "cel-memory"
version = "0.2.1"
edition = "2021"
publish = false

[dependencies]
async-trait = "0.1"
chrono = "0.4"
serde_json = "1"
thiserror = "1"
tokio = { version = "1", features = ["sync"] }
uuid = { version = "1", features = ["v7"] }
