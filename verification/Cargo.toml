[package]
name = "bridge_harness"
version = "0.1.0"
edition = "2021"
publish = false

[dependencies]
clarity = "=1.7.0"
gravity_proto = "=0.12.0"
serde = { version = "=1.0.229", features = ["derive"] }
tokio = { version = "=1.53.2", features = ["time", "rt-multi-thread", "macros"] }
tonic = "=0.12.3"
web30 = "=1.15.0"
