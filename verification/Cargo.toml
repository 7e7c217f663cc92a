[package]
name = "ahoy_box3d"
version = "0.1.0"
edition = "2021"
publish = false

[dependencies]
bevy_app = "0.18"
bevy_ecs = "0.18"
bevy_math = "0.18"
bevy_time = "0.18"
bevy_transform = "0.18"
bevy_box3d = "*"
box3d = "*"
