[package]
name = "address_health"
version = "0.1.0"
edition = "2021"
publish = false

[dependencies]
sycamore = "0.5"
reqwasm = "0.5"
wasm-bindgen-futures = "0.4"
log = "0.4"
console_log = "*"
console_error_panic_hook = "0.1"
