[package]
name = "try_in_browser"
version = "0.1.0"
edition = "2021"
publish = false

[dependencies]
base64 = "=0.13.1"
js-sys = "=0.3.106"
wasm-bindgen = { version = "=0.2.129", features = ["serde-serialize"] }
wasm-bindgen-futures = "=0.4.79"
web-sys = { version = "=0.3.106", features = ["Blob", "BlobPropertyBag", "MessageEvent", "Performance", "Response", "Selection", "TextEncoder", "Url", "Window", "Worker", "WorkerGlobalScope", "console"] }
seed = "0.10"
