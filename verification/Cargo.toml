[package]
name = "suspense"
version = "0.1.0"
edition = "2021"
publish = false

[dependencies]
any_spawner = { version = "=0.3.0", features = ["futures-executor"] }
futures = "=0.3.34"
parking_lot = "=0.12.5"
reactive_graph = "=0.2.15"
