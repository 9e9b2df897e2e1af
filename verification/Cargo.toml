[package]
name = "luau_types_re_export"
version = "0.1.0"
edition = "2021"
publish = false

[dependencies]
full_moon = { version = "=2.2.0", features = ["luau"] }
stylua = { version = "=2.5.2", features = ["luau"], default-features = false }
wasm-bindgen = "=0.2.129"
