[package]
name = "frame_renderer"
version = "0.1.0"
edition = "2021"
publish = false

[dependencies]
ash = "0.32"
png = "0.16"
spirv-std = "*"
