[package]
name = "explorer_rs"
version = "0.1.0"
edition = "2021"
publish = false

[dependencies]
bytesize = "=1.3.3"
time = "=0.3.55"
dirs = "=5.0.1"
open = "=5.4.5"
file-format = "=0.24.0"
serde = { version = "=1.0.229", features = ["derive"] }
eframe = { version = "0.27", default-features = false, features = ["glow", "persistence"] }
egui_extras = { version = "0.27", default-features = false }
