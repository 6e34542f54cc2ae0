[package]
name = "goobler"
version = "0.1.0"
edition = "2021"
publish = false

[dependencies]
egui = "0.28"
cpal = "0.15"
rodio = { version = "0.19", default-features = false }
rand = "0.8"
libc = "0.2"
serde = { version = "1", features = ["derive"] }
serde_json = "1"
