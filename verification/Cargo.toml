[package]
name = "chip8"
version = "0.1.0"
edition = "2021"
publish = false

[dependencies]
rand = "0.7"
sdl2 = "0.32"
log = "0.4"
env_logger = "0.7"
lazy_static = "1"
