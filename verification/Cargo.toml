[package]
name = "event_discard"
version = "0.1.0"
edition = "2021"
publish = false

[dependencies]
discard = "1.0"
gloo-events = "0.2"
wasm-bindgen = "0.2"
web-sys = { version = "0.3", features = ["Event", "EventTarget"] }
