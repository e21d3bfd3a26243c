[package]
name = "photo_editor"
version = "0.1.0"
edition = "2021"
publish = false

[dependencies]
base64 = "0.13"
image = { version = "0.24", default-features = false, features = ["png", "jpeg", "gif", "bmp"] }
serde_json = "1"
wasm-bindgen = "0.2"
web-sys = { version = "0.3", features = ["console"] }
console_error_panic_hook = "0.1"
tract-tensorflow = "*"
