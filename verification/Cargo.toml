[package]
name = "redactor"
version = "0.1.0"
edition = "2021"
publish = false

[dependencies]
anyhow = "1"
directories = "5"
eframe = { version = "0.32", default-features = false, features = ["default_fonts", "glow", "x11"] }
egui = "0.32"
env_logger = { version = "0.11", default-features = false, features = ["humantime"] }
image = { version = "0.25", default-features = false, features = ["png", "jpeg", "gif", "webp"] }
log = "0.4"
lopdf = { version = "=0.32.0", default-features = false }
pdfium-render = "0.8"
rfd = { version = "0.15", default-features = false, features = ["gtk3"] }
tempfile = "3"
