[package]
name = "stream_gears"
version = "0.1.0"
edition = "2021"
publish = false

[dependencies]
anyhow = "*"
biliup = "*"
futures = "*"
serde_json = "*"
tokio = { version = "*", features = ["rt-multi-thread", "fs", "time"] }
