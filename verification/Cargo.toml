[package]
name = "ironbar_core"
version = "0.1.0"
edition = "2021"
publish = false

[dependencies]
tokio = { version = "=1.53.2", features = ["sync", "rt", "rt-multi-thread", "time", "macros"] }
serde = { version = "=1.0.229", features = ["derive"] }
swayipc-async = "=3.0.0"
futures-lite = "*"
tracing = "=0.1.44"
color-eyre = "=0.6.5"
