[package]
name = "translation_overlay"
version = "0.1.0"
edition = "2021"
publish = false

[dependencies]
eframe = { version = "=0.36.2", default-features = false, features = ["glow", "x11"] }
env_logger = { version = "=0.11.11", default-features = false }
log = "=0.4.34"
pyo3 = "=0.29.3"
serde = { version = "=1.0.229", features = ["derive"] }
toml = "=0.9.8"
