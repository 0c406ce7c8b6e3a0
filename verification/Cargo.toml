[package]
name = "retry_backoff"
version = "0.1.0"
edition = "2021"
publish = false

[dependencies]
hyper = { version = "0.14", features = ["client", "http1", "http2", "runtime"] }
hyper-rustls = { version = "0.24", features = ["http2"] }
rand = "0.8"
tokio = { version = "1", features = ["macros", "rt-multi-thread", "time"] }
tower = { version = "0.4", features = ["retry"] }
