[package]
name = "reactor_trait"
version = "0.1.0"
edition = "2021"
publish = false

[dependencies]
async-io = "*"
async-trait = "0.1"
futures-core = "0.3"
futures-io = "0.3"
tokio = { version = "1", features = ["net", "rt", "time"] }
tokio-stream = "0.1"
tokio-util = { version = "0.7", features = ["compat"] }
