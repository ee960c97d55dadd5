[package]
name = "domdb"
version = "0.1.0"
edition = "2021"
publish = false

[dependencies]
uuid = { version = "1", features = ["v4", "serde"] }
num-traits = "0.2"
serde = { version = "1", features = ["derive"] }
serde-wasm-bindgen = "0.4"
wasm-bindgen = "0.2"
wasm-bindgen-futures = "0.4"
js-sys = "0.3"
web-sys = { version = "0.3", features = ["Event", "HtmlElement", "HtmlInputElement", "KeyboardEvent", "DomException"] }
sycamore = { version = "0.8", features = ["suspense"] }
rexie = "0.4"
log = "0.4"
console_log = "0.2"
console_error_panic_hook = "0.1"
