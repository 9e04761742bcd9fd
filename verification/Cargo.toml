[package]
name = "rofd"
version = "0.1.0"
edition = "2021"
publish = false

[dependencies]
peniko = "*"
kurbo = "*"
parley = "*"
imaging = "*"
wasm-bindgen = "*"
js-sys = "*"
web-sys = "*"
console_error_panic_hook = "*"
pollster = "*"
