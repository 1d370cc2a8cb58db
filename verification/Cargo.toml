[package]
name = "tower_builder"
version = "0.1.0"
edition = "2021"
publish = false

[dependencies]
wgpu = "25"
winit = "0.29"
glam = "0.29"
bytemuck = { version = "1", features = ["derive"] }
log = "0.4"
env_logger = "0.11"
pollster = "0.3"
cfg-if = "1"
wasm-bindgen = "0.2"
wasm-bindgen-futures = "0.4"
web-sys = { version = "0.3", features = ["Window", "Document", "Element", "HtmlCanvasElement", "Performance"] }
console_log = "1"
console_error_panic_hook = "0.1"
