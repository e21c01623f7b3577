[package]
name = "hl"
version = "0.1.0"
edition = "2021"
publish = false

[dependencies]
syntect = { version = "=4.6.0", default-features = false, features = ["default-fancy"] }
mime-sniffer = "*"
wasm-bindgen = "=0.2.129"
