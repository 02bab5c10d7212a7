[package]
name = "enegine"
version = "0.1.0"
edition = "2021"
publish = false

[dependencies]
ash = "0.31"
ash-window = "0.5"
winit = "0.24"
glam = "0.11"
image = "0.23"
shaderc = "0.7"
vk-mem = "0.2"
gltf = "0.15"
ultraviolet = "0.7"
log = "0.4"
env_logger = "0.8"
lazy_static = "1.4"
