[package]
name = "shard_control"
version = "0.1.0"
edition = "2021"
publish = false

[dependencies]
rand = "0.8"
itertools = "0.12"
tokio = { version = "1", default-features = false, features = ["rt"] }
ash = "0.37"
