[package]
name = "alloc_trace"
version = "0.1.0"
edition = "2021"
publish = false

[dependencies]
console-subscriber = "*"
mini-redis = "*"
structopt = "0.3"
tokio = { version = "1", features = ["full"] }
tracing = "0.1"
tracing-subscriber = "*"
tracking-allocator = "*"
