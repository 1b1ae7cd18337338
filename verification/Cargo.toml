[package]
name = "tower-batch"
version = "0.1.0"
edition = "2021"
publish = false

[dependencies]
futures-core = "0.3"
hex = "0.4"
tokio = { version = "1", features = ["rt", "sync", "time"] }
tower = "0.5"
tracing = { version = "0.1", default-features = false, features = ["std"] }
