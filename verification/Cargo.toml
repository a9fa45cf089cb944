[package]
name = "demo_windows"
version = "0.1.0"
edition = "2021"
publish = false

[dependencies]
egui = "0.22"
serde = { version = "1", features = ["derive"] }
