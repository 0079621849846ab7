[package]
name = "worker"
version = "0.1.0"
edition = "2021"
publish = false

[dependencies]
js-sys = "0.3"
wasm-bindgen = "0.2"
web-sys = { version = "0.3", features = ["AbortController", "AbortSignal", "EventTarget"] }
wasm-bindgen-macro-support = "0.2"
proc-macro2 = "1"
quote = "1"
syn = { version = "2", features = ["full"] }
