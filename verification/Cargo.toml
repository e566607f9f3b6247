[package]
name = "js_engine"
version = "0.1.0"
edition = "2021"
publish = false

[dependencies]
anyhow = "1"
candid = "0.9"
ic0 = "0.18"
ic-cdk = "0.10"
ic-cdk-macros = "0.7"
ic-wasi-polyfill = "0.3"
quickjs-wasm-rs = "1.0.0"
