[package]
name = "tracevm"
version = "0.1.0"
edition = "2021"
publish = false

[dependencies]
alloy-primitives = "0.7"
alloy-sol-types = "0.7"
hex = "0.4"
queues = "1.1"
revm = { version = "10.0.0", default-features = false, features = ["std"] }
serde = { version = "1", features = ["derive"] }
serde_json = "1"
