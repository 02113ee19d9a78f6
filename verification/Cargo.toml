[package]
name = "rust_engine"
version = "0.1.0"
edition = "2021"
publish = false

[dependencies]
hecs = "0.10"
winit = { version = "0.28", default-features = false, features = ["x11"] }
image = { version = "0.24", default-features = false, features = ["png"] }
glam = "0.27"
serde = { version = "1", features = ["derive"] }
toml = "0.8"
log = "0.4"
env_logger = "0.10"
