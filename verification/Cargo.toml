[package]
name = "miti_tracefront"
version = "0.1.0"
edition = "2021"
publish = false

[dependencies]
eframe = { version = "0.27", default-features = false }
egui_extras = { version = "0.27", default-features = false }
ewebsock = "0.4"
env_logger = "0.10"
log = "0.4"
serde = { version = "1", features = ["derive"] }
serde_json = "1"
