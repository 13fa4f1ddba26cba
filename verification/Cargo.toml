[package]
name = "pingpong"
version = "0.1.0"
edition = "2021"
publish = false

[dependencies]
serde_json = "=1.0.154"
tokio = { version = "=1.54.1", features = ["rt-multi-thread"] }
tonic = "=0.12.3"
prost = "=0.13.5"
wasm-bindgen = "=0.2.129"
wasm-bindgen-futures = "=0.4.79"
web-sys = { version = "=0.3.106", features = ["Headers", "Request", "RequestInit", "RequestMode", "Response", "Window"] }
