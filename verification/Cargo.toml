[package]
name = "clay_core"
version = "0.1.0"
edition = "2021"
publish = false

[dependencies]
lru = "=0.12.5"
yew = "=0.21.0"
js-sys = "=0.3.106"
wasm-bindgen = "=0.2.129"
web-sys = { version = "=0.3.106", features = ["CssStyleDeclaration", "Element", "MouseEvent", "Window"] }
serde = { version = "=1.0.229", features = ["derive"] }
serde-wasm-bindgen = "=0.6.5"
