[package]
name = "gasbombe"
version = "0.1.0"
edition = "2021"
publish = false

[dependencies]
tera = { version = "=1.20.1", default-features = false }
anyhow = "=1.0.104"
serde = { version = "=1.0.229", features = ["derive"] }
wasm-bindgen = "=0.2.129"
wasm-bindgen-futures = "=0.4.79"
serde-wasm-bindgen = "=0.6.5"
console_error_panic_hook = "=0.1.7"
inquire = "=0.9.4"

[dev-dependencies]
pest = "=2.9.4"
