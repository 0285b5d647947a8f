[package]
name = "pipeline_sidecar"
version = "0.1.0"
edition = "2021"
publish = false

[dependencies]
anyhow = "1"
axum = "0.6"
ctrlc = "3"
gstreamer = "0.20"
tokio = { version = "1", features = ["full"] }
tower = "0.4"
