[package]
name = "tango_core"
version = "0.1.0"
edition = "2021"
publish = false

[dependencies]
anyhow = "*"
log = "*"
tokio = { version = "*", features = ["sync", "rt", "rt-multi-thread", "macros", "time"] }
