[package]
name = "tufa"
version = "0.1.0"
edition = "2021"
publish = false

[dependencies]
anyhow = "*"
bytemuck = "*"
crossbeam-channel = "*"
encase = "*"
parking_lot = "*"
pollster = "*"
wgpu = "*"
