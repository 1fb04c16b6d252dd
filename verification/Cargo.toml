[package]
name = "websocket"
version = "0.1.0"
edition = "2021"
publish = false

[dependencies]
backoff = "*"
js-sys = "*"
wasm-bindgen = "*"
web-sys = { version = "*", features = ["BinaryType", "CloseEvent", "Event", "MessageEvent", "WebSocket", "Window"] }
