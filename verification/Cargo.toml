[package]
name = "sink_pipeline"
version = "0.1.0"
edition = "2021"
publish = false

[dependencies]
serde = { version = "1", features = ["derive"] }
toml = "0.5"
tower = { version = "0.4", features = ["limit", "retry", "timeout", "util"] }
