[package]
name = "weoo"
version = "0.1.0"
edition = "2021"
publish = false

[dependencies]
arboard = { version = "3", default-features = false }
chrono = { version = "0.4", features = ["serde"] }
eframe = { version = "0.27", default-features = false, features = ["glow"] }
egui = "0.27"
egui_plot = "0.27"
once_cell = "1"
rand = "0.8"
regex = "1"
serde = { version = "1", features = ["derive"] }
serde_json = "1"
uuid = { version = "1", features = ["v4"] }
