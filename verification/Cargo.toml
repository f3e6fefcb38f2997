[package]
name = "imgui-wgpu"
version = "0.1.0"
edition = "2021"
publish = false

[dependencies]
bytemuck = "1"
imgui = "=0.12.0"
smallvec = "1"
wgpu = { version = "0.20", default-features = false, features = ["wgsl"] }
