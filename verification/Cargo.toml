[package]
name = "game_of_life"
version = "0.1.0"
edition = "2021"
publish = false

[dependencies]
anyhow = "1"
bytemuck = { version = "1", features = ["derive"] }
config = { version = "0.15", default-features = false, features = ["toml"] }
console_error_panic_hook = "0.1"
console_log = "1"
env_logger = "0.11"
log = "0.4"
pollster = "0.4"
rand = "0.9"
serde = { version = "1", features = ["derive"] }
wasm-bindgen = "0.2"
wasm-bindgen-futures = "0.4"
web-sys = { version = "0.3", features = ["Document", "Element", "HtmlCanvasElement", "Window"] }
web-time = "1"
wgpu = "26"
winit = "0.30"
