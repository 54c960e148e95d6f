[package]
name = "watchexec"
version = "0.1.0"
edition = "2021"
publish = false

[dependencies]
atomic-take = "1"
futures = "0.3"
tokio = { version = "1", features = ["macros", "rt", "rt-multi-thread", "sync", "time"] }
tracing = "0.1"
