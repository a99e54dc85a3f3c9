[package]
name = "flyrust"
version = "0.1.0"
edition = "2021"
publish = false

[dependencies]
rand = "0.9"
chrono = { version = "*", default-features = false, features = ["clock"] }
rusqlite = { version = "*", features = ["bundled"] }
serde = { version = "*", features = ["derive"] }
serde_json = "*"
eframe = { version = "*", default-features = false, features = ["glow", "default_fonts", "x11"] }
egui = "*"
egui_extras = { version = "*", features = ["image"] }
image = { version = "*", default-features = false, features = ["png"] }
font-kit = "*"
include_dir = "*"
