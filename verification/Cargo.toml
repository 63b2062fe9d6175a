[package]
name = "life-of-pie"
version = "0.1.0"
edition = "2021"
publish = false

[dependencies]
tokio = { version = "1", features = ["full"] }
futures = "0.3"
heapless = "0.8"
