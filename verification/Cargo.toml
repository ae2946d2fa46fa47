[package]
name = "render_core"
version = "0.1.0"
edition = "2021"
publish = false

[dependencies]
glam = "=0.27.0"
pollster = "=0.3.0"
noise = { version = "=0.9.0", default-features = false }
once_cell = "=1.21.4"
bytemuck = { version = "=1.25.2", features = ["derive"] }
