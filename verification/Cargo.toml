[package]
name = "kapacitor_udf"
version = "0.1.0"
edition = "2021"
publish = false

[dependencies]
async-std = { version = "1", features = ["attributes"] }
async-trait = "0.1"
futures = "0.3"
futures-util = "0.3"
prost = "0.13"
signal-hook = "0.3"
signal-hook-async-std = "0.2"
tracing = "0.1"
