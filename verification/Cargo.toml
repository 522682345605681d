[package]
name = "room619_core"
version = "0.1.0"
edition = "2021"
publish = false

[dependencies]
log = "0.4"
num_cpus = "1"
serde = { version = "1", features = ["derive"] }
serde_json = "1"
tokio = { version = "1", features = ["macros", "rt-multi-thread", "signal"] }
tracing = "0.1"
tracing-subscriber = "0.3"
