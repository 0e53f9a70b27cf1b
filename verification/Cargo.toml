[package]
name = "aerospace-net-bench"
version = "0.1.0"
edition = "2021"
publish = false

[dependencies]
anyhow = "1"
clap = { version = "4", features = ["derive"] }
quinn = "0.11"
rcgen = "0.13"
rustls = "0.23"
tokio = { version = "1", features = ["full"] }
tokio-rustls = "0.26"
