[package]
name = "voxelweaver"
version = "0.1.0"
edition = "2021"
publish = false

[dependencies]
code-fuzzy-match = "=0.2.2"
serde = { version = "1", features = ["derive"] }
serde_json = "1"
glam = "0.28"
bytemuck = { version = "1", features = ["derive"] }
walkdir = "2"
pathdiff = "0.2"
image = { version = "0.25", default-features = false, features = ["png", "jpeg"] }
egui = { version = "0.28", default-features = false }
egui-phosphor = { version = "0.6", default-features = false, features = ["regular"] }
