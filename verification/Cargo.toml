[package]
name = "sutki"
version = "0.1.0"
edition = "2021"
publish = false

[dependencies]
chrono = "0.4"
eframe = { version = "0.31", default-features = false, features = ["default_fonts", "glow", "persistence", "x11"] }
egui = "0.31"
log = "0.4"
serde = { version = "1", features = ["derive"] }
