[package]
name = "ura_plugin"
version = "0.1.0"
edition = "2021"
publish = false

[dependencies]
arc-swap = "1"
egui = { version = "*", default-features = false }
log = "0.4"
once_cell = "1"
serde = { version = "1", features = ["derive"] }
serde_json = "1"
ureq = { version = "2", default-features = false }
