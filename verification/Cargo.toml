[package]
name = "wasm_thread"
version = "0.1.0"
edition = "2021"
publish = false

[dependencies]
async-channel = "*"
futures = "*"
wasm-bindgen = "*"
js-sys = "*"
web-sys = { version = "*", features = ["Blob", "BlobPropertyBag", "DedicatedWorkerGlobalScope", "MessageEvent", "Url", "Worker", "WorkerOptions", "WorkerType"] }
