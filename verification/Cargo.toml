[package]
name = "re202-core"
version = "0.1.0"
edition = "2021"
publish = false

[dependencies]
serde = { version = "1", features = ["derive"] }
serde_yaml = "0.9"
thiserror = "1"
schemars = "0.8"
wasm-bindgen = "0.2"
tsify-next = "0.5"
serde-wasm-bindgen = "0.6"
