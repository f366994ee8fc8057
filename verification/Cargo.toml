[package]
name = "pixelframe"
version = "0.1.0"
edition = "2021"
publish = false

[dependencies]
png = "*"
pixels = "*"
winit = "*"
