[package]
name = "doggy_bag"
version = "0.1.0"
edition = "2021"
publish = false

[dependencies]
crc = "3"
chrono = "0.4"
js-sys = "0.3"
wasm-bindgen = "0.2"
