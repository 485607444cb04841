[package]
name = "event_bridge"
version = "0.1.0"
edition = "2021"
publish = false

[dependencies]
chrono = "0.4"
crossbeam = "0.3"
futures = "0.1"
gtk = "0.1"
tokio-core = "0.1"
tokio-timer = "0.1"
