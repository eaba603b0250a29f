[package]
name = "petals"
version = "0.1.0"
edition = "2021"
publish = false

[dependencies]
wgpu = "25"
eframe = { version = "0.32", default-features = false, features = ["wgpu", "x11", "default_fonts", "persistence"] }
egui = "0.32"
egui_plot = "0.33"
egui_tiles = "0.13"
image = { version = "0.25", default-features = false, features = ["png", "jpeg"] }
nalgebra = "0.33"
bytemuck = { version = "1", features = ["derive"] }
serde = { version = "1", features = ["derive"] }
