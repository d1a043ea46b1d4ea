[package]
name = "trekanten"
version = "0.1.0"
edition = "2021"
publish = false

[dependencies]
ash = "0.31"
ash-window = "0.5"
env_logger = "0.8"
glfw = "0.41"
log = "0.4"
raw-window-handle = "0.3"
spirv-reflect = "0.2"
