[package]
name = "mado"
version = "0.1.0"
edition = "2021"
publish = false

[dependencies]
anyhow = "1"
bytemuck = { version = "1", features = ["derive"] }
eframe = { version = "0.31", default-features = false, features = ["default_fonts", "glow", "x11"] }
ffmpeg-next = "8"
log = "0.4"
serde = { version = "1", features = ["derive"] }
serde_json = "1"
wait-timeout = "0.2"
