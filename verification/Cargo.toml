[package]
name = "dragon_lair"
version = "0.1.0"
edition = "2021"
publish = false

[dependencies]
image = { version = "=0.25.10", default-features = false, features = ["png"] }
glow = "0.16"
rustc-hash = "2"
egui = { version = "0.31", default-features = false, features = ["default_fonts"] }
eframe = { version = "0.31", default-features = false, features = ["glow", "default_fonts", "x11"] }
egui-winit = { version = "0.31", default-features = false, features = ["x11"] }
winit = { version = "0.30", default-features = false, features = ["x11", "rwh_06"] }
bytemuck = "1"
uuid = { version = "1", features = ["v4"] }
serde = { version = "1", features = ["derive"] }
crossbeam = "0.8"
derivative = "2"
