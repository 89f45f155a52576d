[package]
name = "optics"
version = "0.1.0"
edition = "2021"
publish = false

[dependencies]
anyhow = "*"
eframe = { version = "*", default-features = false, features = ["glow", "x11", "default_fonts"] }
egui = "*"
egui_dock = "*"
egui_extras = { version = "*", default-features = false }
egui_plot = "*"
env_logger = { version = "*", default-features = false }
glam = "*"
log = "*"
tokio = { version = "*", features = ["macros", "rt-multi-thread", "sync"] }
