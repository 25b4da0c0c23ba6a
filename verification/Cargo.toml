[package]
name = "tracing_slog"
version = "0.1.0"
edition = "2021"
publish = false

[dependencies]
slog = "2"
tracing-core = "0.1"
once_cell = "1"
