[package]
name = "realsense_rust"
version = "0.1.0"
edition = "2021"
publish = false

[dependencies]
anyhow = "=1.0.104"
nalgebra = "=0.35.0"
realsense-sys = { version = "=2.56.5", features = ["docs-only"] }
thiserror = "=1.0.69"
