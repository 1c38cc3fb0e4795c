[package]
name = "hpw_convert_eip681"
version = "0.1.0"
edition = "2021"
publish = false

[dependencies]
alloy-primitives = "1"
url = "2"
serde = { version = "1", features = ["derive"] }
thiserror = "2"
wasm-bindgen = "0.2"
serde-wasm-bindgen = "0.6"
console_error_panic_hook = "0.1"
