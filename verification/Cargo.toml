[package]
name = "signal_native"
version = "0.1.0"
edition = "2021"
publish = false

[dependencies]
hex = "0.4.3"
napi = { version = "2", features = ["async", "napi4"] }
napi-derive = "2"
tokio = { version = "1", features = ["sync", "rt", "macros"] }
futures = "0.3"
once_cell = "1"
log = "0.4"
