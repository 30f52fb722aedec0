[package]
name = "peer"
version = "0.1.0"
edition = "2021"
publish = false

[dependencies]
failure = "0.1"
futures = "0.3"
riker = "0.4"
slog = "2"
tokio = { version = "0.2", features = ["tcp", "time", "rt-core", "rt-threaded", "io-util"] }
