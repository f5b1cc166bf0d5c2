[package]
name = "devrs"
version = "0.1.0"
edition = "2021"
publish = false

[dependencies]
anyhow = "1"
axum = "0.7"
bollard = "0.17"
chrono = "0.4"
clap = { version = "4", features = ["derive"] }
directories = "5"
dirs = "5"
futures-util = "0.3"
pathdiff = "0.2"
serde = { version = "1", features = ["derive"] }
tokio = { version = "1", features = ["full"] }
toml = "0.8"
tower = "0.4"
tower-http = { version = "0.5", features = ["cors", "fs", "trace"] }
tracing = "0.1"
