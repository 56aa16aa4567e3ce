[package]
name = "trident_engine"
version = "0.1.0"
edition = "2021"
publish = false

[dependencies]
gl = "=0.14.0"
sdl2 = { version = "=0.38.0", features = ["image"] }
log = "=0.4.34"
env_logger = "=0.11.11"
nalgebra-glm = "=0.21.0"
async-std = "=1.13.2"
