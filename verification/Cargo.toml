[package]
name = "slog_prometheus"
version = "0.1.0"
edition = "2021"
publish = false

[dependencies]
prometheus = { version = "=0.14.0", default-features = false }
slog = "=2.8.2"
