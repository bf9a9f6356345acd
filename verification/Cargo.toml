[package]
name = "imu_pipeline"
version = "0.1.0"
edition = "2021"
publish = false

[dependencies]
rand = "0.9"
rand_distr = "0.5"
nalgebra = "*"
tokio = { version = "1", features = ["rt-multi-thread", "net", "time", "io-util", "macros"] }
clap = { version = "4", features = ["derive"] }
slog = "2"
slog-async = "2"
slog-term = "2"
