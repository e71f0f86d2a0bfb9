[package]
name = "arbiter_kernel"
version = "0.1.0"
edition = "2021"
publish = false

[dependencies]
crossbeam-channel = "*"
futures = "*"
tokio = { version = "*", features = ["sync", "rt-multi-thread", "macros", "time"] }
revm = "*"
