[package]
name = "gb_emulator"
version = "0.1.0"
edition = "2021"
publish = false

[dependencies]
thiserror = "1"
wasm-bindgen = "0.2"
serde = { version = "1", features = ["derive"] }
serde-wasm-bindgen = "0.5"
wee_alloc = "0.4"
leptos = { version = "0.4", default-features = false, features = ["csr"] }
