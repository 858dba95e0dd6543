[package]
name = "rebalancer_metrics"
version = "0.1.0"
edition = "2021"
publish = false

[dependencies]
gethostname = "0.2"
hyper = "0.12"
lazy_static = "1"
prometheus = { version = "0.13", default-features = false }
serde = { version = "1", features = ["derive"] }
serde_derive = "1"
slog = "2"
slog-scope = "4"
