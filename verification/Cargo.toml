[package]
name = "ds"
version = "0.1.0"
edition = "2021"
publish = false

[dependencies]
anyhow = "=1.0.104"
bytes = "=1.12.1"
tokio = { version = "=1.53.2", features = ["sync", "net", "rt", "rt-multi-thread", "time", "io-util"] }
tokio-util = { version = "=0.7.19", features = ["codec", "net"] }
