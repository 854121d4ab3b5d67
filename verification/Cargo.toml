[package]
name = "flux-desktop"
version = "0.1.0"
edition = "2021"
publish = false

[dependencies]
image = { version = "0.25", default-features = false, features = ["png", "jpeg", "bmp", "webp"] }
serde = { version = "1", features = ["derive"] }
serde_json = "1"
clap = { version = "4", features = ["derive"] }
log = "0.4"
env_logger = "0.11"
pollster = "0.3"
bytemuck = "1"
tokio = { version = "1", features = ["rt-multi-thread", "sync"] }
winit = { version = "0.29", default-features = false, features = ["rwh_06", "x11"] }
wgpu = "27"
raw-window-handle = "0.6"
cocoa = "0.26"
objc = "0.2"
core-graphics = "0.24"
