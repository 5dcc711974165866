[package]
name = "msdf_renderer"
version = "0.1.0"
edition = "2021"
publish = false

[dependencies]
hotwatch = "*"
log = "*"
simple_logger = "*"

[dev-dependencies]
bytemuck = "*"
