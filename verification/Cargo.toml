[package]
name = "shot_limit"
version = "0.1.0"
edition = "2021"
publish = false

[dependencies]
quanta = "*"
tokio = { version = "*", features = ["time", "rt", "sync"] }
tower = { version = "*", features = ["timeout", "load-shed", "util", "buffer"] }
