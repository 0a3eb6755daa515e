[package]
name = "leptos_use"
version = "0.1.0"
edition = "2021"
publish = false

[dependencies]
leptos = "0.5"
web-sys = { version = "0.3", features = ["WebSocket", "BinaryType", "Event", "CloseEvent", "MessageEvent", "Element", "IntersectionObserver", "IntersectionObserverEntry", "IntersectionObserverInit"] }
js-sys = "0.3"
wasm-bindgen = "0.2"
default-struct-builder = "0.5"
cfg-if = "1"
