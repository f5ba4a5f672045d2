[package]
name = "sloggers"
version = "0.3.0"
edition = "2021"
publish = false

[dependencies]
serde = { version = "1", features = ["derive"] }
slog = "2"
slog-async = "2"
slog-kvfilter = "*"
slog-term = "2"
