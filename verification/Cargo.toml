[package]
name = "vu"
version = "0.1.0"
edition = "2021"
publish = false

[dependencies]
anyhow = "=1.0.104"
fast_image_resize = "5"
image = { version = "0.25", default-features = false, features = ["gif", "jpeg", "png", "webp"] }
pico-args = "=0.5.0"
winit = { version = "0.29", default-features = false, features = ["rwh_05", "wayland", "wayland-dlopen", "x11"] }
