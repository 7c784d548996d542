[package]
name = "flora_rs"
version = "0.1.0"
edition = "2021"
publish = false

[dependencies]
aes-gcm = "0.10"
hex = "0.4"
rand = "0.8"
wasm-bindgen = "0.2"
console_error_panic_hook = "0.1"
pyo3 = "0.20"
