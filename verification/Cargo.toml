[package]
name = "rs-perf-test-helper"
version = "0.1.0"
edition = "2021"
publish = false

[dependencies]
futures = "0.3"
futures-core = "0.3"
log = "0.4"
prost = "0.13"
prost-types = "0.13"
tokio = { version = "1", features = ["macros", "rt-multi-thread", "sync", "time"] }
tokio-stream = "0.1"
tonic = { version = "0.12", default-features = false, features = ["codegen", "prost"] }
uuid = { version = "1", features = ["v4"] }
