[package]
name = "bevy_wgpu"
version = "0.1.0"
edition = "2021"
publish = false

[dependencies]
wgpu = { version = "=30.0.1", features = ["spirv"] }
log = "=0.4.34"
bevy_render = "=0.1.3"
bevy_asset = "=0.1.3"
bevy_window = "=0.1.3"
notify = "=5.0.0-pre.2"
