[package]
name = "webvowl_wasm"
version = "0.1.0"
edition = "2021"
publish = false

[dependencies]
console_error_panic_hook = "0.1"
nalgebra = "0.32"
petgraph = "0.6"
serde = { version = "1", features = ["derive"] }
serde-wasm-bindgen = "0.6"
serde_json = "1"
thiserror = "1"
wasm-bindgen = "0.2"
