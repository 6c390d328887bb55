[package]
name = "bouncing_paths"
version = "0.1.0"
edition = "2021"
publish = false

[dependencies]
nannou = "0.18"
rgb = "0.8"
