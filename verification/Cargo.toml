[package]
name = "troupe"
version = "0.2.0"
edition = "2021"
publish = false

[dependencies]
anymap2 = "0.13"
async-std = "1"
futures = "0.3"
gloo-timers = { version = "0.3", features = ["futures"] }
instant = "0.1"
pin-project = "1"
send_wrapper = { version = "0.6", features = ["futures"] }
tokio = { version = "1", features = ["macros", "rt", "sync", "time"] }
tokio-stream = { version = "0.1", features = ["sync"] }
wasm-bindgen-futures = "0.4"
