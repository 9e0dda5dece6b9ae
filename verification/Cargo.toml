[package]
name = "bevy_openxr_poc"
version = "0.1.0"
edition = "2021"
rust-version = "1.95"
publish = false

[dependencies]
ash = "=0.38.0"
bevy = { version = "=0.19.1", default-features = false, features = ["bevy_render", "bevy_core_pipeline", "bevy_pbr", "bevy_winit", "bevy_log", "multi_threaded", "raw_vulkan_init", "x11"] }
openxr = { version = "=0.21.1", default-features = false, features = ["loaded"] }
wgpu = { version = "=29.0.4", default-features = false, features = ["vulkan"] }
