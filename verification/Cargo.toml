[package]
name = "yewchat"
version = "0.1.0"
edition = "2021"
publish = false

[dependencies]
serde = { version = "1", features = ["derive"] }
serde_json = "1"
yew = "0.19"
yew-agent = "0.1"
yew-router = "0.16"
web-sys = { version = "0.3", features = ["HtmlInputElement", "InputEvent", "WebSocket", "MessageEvent", "Event", "EventTarget"] }
gloo = "0.4"
js-sys = "0.3"
wasm-bindgen = "0.2"
