[package]
name = "cell_grid"
version = "0.1.0"
edition = "2021"
publish = false

[dependencies]
bevy = { version = "=0.15.3", default-features = false }
glam = "=0.29.3"
hexx = "=0.19.1"
serde = { version = "=1.0.229", features = ["derive"] }
