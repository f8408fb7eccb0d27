[package]
name = "firesim"
version = "0.1.0"
edition = "2021"
publish = false

[dependencies]
anyhow = "1"
bytemuck = { version = "=1.25.2", features = ["derive"] }
console_error_panic_hook = "0.1"
console_log = "1"
fern = "0.7"
fontdue = "0.9"
futures-intrusive = "0.5"
gloo-timers = { version = "0.3", features = ["futures"] }
js-sys = "0.3"
log = "0.4"
minifb = "0.28"
pollster = "0.4"
wasm-bindgen = "0.2"
wasm-bindgen-futures = "0.4"
watch = "0.2"
web-sys = { version = "0.3", features = ["Window", "Document", "Element", "HtmlCanvasElement", "Worker", "WorkerOptions", "WorkerType", "DedicatedWorkerGlobalScope"] }
wgpu = "27"
winit = "0.30"
