[package]
name = "speaking_turns"
version = "0.1.0"
edition = "2021"
publish = false

[dependencies]
web-time = "1"
serde = { version = "1", features = ["derive"] }
futures = "0.3"
rfd = "0.15"
egui = "0.27"
eframe = { version = "0.27", default-features = false, features = ["default_fonts", "glow", "persistence"] }
