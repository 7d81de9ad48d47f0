[package]
name = "vk_setup"
version = "0.1.0"
edition = "2021"
publish = false

[dependencies]
vulkano = "=0.27.1"
vulkano-win = "=0.27.1"
winit = "=0.25.0"
image = "=0.24.9"
