[package]
name = "lnd_grpc"
version = "0.1.0"
edition = "2021"
publish = false

[dependencies]
hyper = "1"
hyper-util = { version = "0.1", features = ["client-legacy", "http1", "tokio"] }
tonic = "*"
tonic-prost-build = "*"
