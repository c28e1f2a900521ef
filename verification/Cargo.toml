[package]
name = "pali_course"
version = "0.1.0"
edition = "2021"
publish = false

[dependencies]
itertools = "=0.10.5"
rand = "=0.8.8"
percent-encoding = "=2.3.2"
serde = { version = "=1.0.229", features = ["derive"] }
serde-wasm-bindgen = "=0.6.5"
wasm-bindgen = "=0.2.129"
js-sys = "=0.3.106"
web-sys = { version = "=0.3.106", features = ["HtmlInputElement", "Event", "EventTarget", "MouseEvent", "InputEvent", "console"] }
yew = { version = "=0.23.0", features = ["csr"] }
yew-router = "=0.20.0"
stylist = { version = "=0.15.1", features = ["yew_integration"] }
console_error_panic_hook = "=0.1.7"
