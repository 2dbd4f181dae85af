[package]
name = "uzumaki"
version = "0.1.0"
edition = "2021"
publish = false

[dependencies]
unicode-segmentation = "1"
serde = { version = "1", features = ["derive"] }
serde_json = "1"
anyhow = "1"
winit = "0.30"
