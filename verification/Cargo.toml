[package]
name = "noteapp"
version = "0.1.0"
edition = "2021"
publish = false

[dependencies]
chrono = "=0.4.45"
eframe = { version = "=0.31.1", default-features = false, features = ["default_fonts", "glow", "x11"] }
serde_json = "=1.0.154"
