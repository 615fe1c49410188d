[package]
name = "calculator"
version = "0.1.0"
edition = "2021"
publish = false

[dependencies]
eframe = { version = "=0.24.1", default-features = false, features = ["persistence", "x11"] }
egui = { version = "=0.24.1", default-features = false }
log = "=0.4.34"
serde = { version = "=1.0.229", features = ["derive"] }
