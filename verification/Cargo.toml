[package]
name = "combat_sim"
version = "0.1.0"
edition = "2021"
publish = false

[dependencies]
rand = "=0.8.8"
serde = { version = "=1.0.229", features = ["derive"] }
serde_json = "=1.0.154"
eframe = { version = "0.29", default-features = false, features = ["glow", "x11"] }
egui_plot = "0.29"
