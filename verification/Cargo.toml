[package]
name = "export_metrics"
version = "0.1.0"
edition = "2021"
publish = false

[dependencies]
http = "*"
snap = "*"
reqwest = { version = "*", default-features = false }
tokio = { version = "*", features = ["rt", "time"] }
prometheus = { version = "*", default-features = false }
prost = "*"
serde = { version = "*", features = ["derive"] }
humantime-serde = "*"
