[package]
name = "mosaic"
version = "0.1.0"
edition = "2021"
publish = false

[dependencies]
image = { version = "0.25", default-features = false, features = ["png", "jpeg", "gif", "bmp", "webp"] }
eframe = { version = "0.30", default-features = false, features = ["default_fonts", "glow", "x11", "wayland"] }
egui_extras = { version = "0.30", default-features = false, features = ["image"] }
rfd = "0.15"
env_logger = "0.11"
