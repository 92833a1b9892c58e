[package]
name = "cordis-rs"
version = "0.1.0"
edition = "2021"
publish = false

[dependencies]
anyhow = "1"
anymap2 = "0.13"
serde = { version = "1", features = ["derive"] }
serde_json = "1"
tokio = { version = "1", features = ["sync"] }
