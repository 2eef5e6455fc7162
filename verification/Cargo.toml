[package]
name = "triangle_batch"
version = "0.1.0"
edition = "2021"
publish = false

[dependencies]
bytemuck = "=1.25.2"
zerocopy = "=0.3.2"
iced_graphics = "=0.1.0"
wgpu = "0.6"
