[package]
name = "revm-utils"
version = "0.1.0"
edition = "2021"
publish = false

[dependencies]
minitrace = "0.6"
serde = { version = "1", features = ["derive"] }
serde_arrays = "0.1"
tracing = "0.1"
