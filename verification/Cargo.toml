[package]
name = "render_loop"
version = "0.1.0"
edition = "2021"
publish = false

[dependencies]
wgpu = "25"
winit = { version = "0.30", default-features = false, features = ["rwh_06", "x11"] }
pollster = "*"
parking_lot = "*"
log = "*"
env_logger = "*"
bytemuck = { version = "1", features = ["derive"] }
