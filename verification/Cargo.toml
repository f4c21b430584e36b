[package]
name = "podclient"
version = "0.1.0"
edition = "2021"
publish = false

[dependencies]
ammonia = "*"
htmlentity = "*"
serde = { version = "*", features = ["derive"] }
serde_json = "*"
gloo-net = "*"
gloo-timers = "=0.3.0"
wasm-bindgen = "*"
wasm-bindgen-futures = "*"
web-sys = { version = "*", features = ["EventTarget", "Node", "Element", "HtmlElement", "HtmlMediaElement", "HtmlAudioElement"] }
