[package]
name = "housingplanner"
version = "0.1.0"
edition = "2021"
publish = false

[dependencies]
chrono = "=0.4.45"
serde = { version = "=1.0.229", features = ["derive"] }
serde_json = "=1.0.154"
egui = "=0.37.0"
eframe = { version = "=0.37.0", default-features = false, features = ["glow", "default_fonts", "x11", "persistence"] }
rfd = { version = "=0.16.1", default-features = false, features = ["xdg-portal", "async-std"] }
