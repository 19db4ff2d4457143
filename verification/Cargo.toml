[package]
name = "task_supervisor"
version = "0.1.0"
edition = "2021"
publish = false

[dependencies]
rand = "0.9"
tokio = { version = "1", features = ["rt-multi-thread", "macros", "time"] }
futures = "0.3"
tracing = "0.1"
tracing-subscriber = "0.3"
