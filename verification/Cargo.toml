[package]
name = "winrmpc"
version = "0.1.0"
edition = "2021"
publish = false

[dependencies]
chrono = "0.4"
iced_core = "0.13"
tokio = { version = "1", features = ["sync", "rt"] }
open = "5"
tracing = "0.1"
