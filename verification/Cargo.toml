[package]
name = "auth_session"
version = "0.1.0"
edition = "2021"
publish = false

[dependencies]
log = "*"
reqwasm = "*"
serde = { version = "*", features = ["derive"] }
serde-wasm-bindgen = "*"
wasm-bindgen = "*"
wasm-bindgen-futures = "*"
wasm-logger = "*"
yew = "0.19"
