[package]
name = "raw_window_handle"
version = "0.1.0"
edition = "2021"
publish = false

[dependencies]
cty = "0.2"
wasm-bindgen = "0.2"
