[package]
name = "wasm-filter"
version = "0.1.0"
edition = "2021"
publish = false

[dependencies]
proxy-wasm = "0.2"
