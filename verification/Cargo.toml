[package]
name = "bevy_log"
version = "0.1.0"
edition = "2021"
publish = false

[dependencies]
tracing = "*"
tracing-subscriber = { version = "*", features = ["env-filter", "fmt", "registry", "std"] }
