[package]
name = "venus"
version = "0.1.0"
edition = "2021"
publish = false

[dependencies]
crossbeam = "0.8"
tracing = "0.1"
tracing-subscriber = "0.3"
