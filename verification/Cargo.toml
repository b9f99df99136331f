[package]
name = "juliet"
version = "0.1.0"
edition = "2021"
publish = false

[dependencies]
bytes = "1"
once_cell = "1"
thiserror = "1"
tokio = { version = "1", features = ["io-util", "macros", "rt", "sync", "time"] }
tracing = "0.1"

[dev-dependencies]
futures = "0.3"
