[package]
name = "bevy_hierarchy"
version = "0.1.0"
edition = "2021"
publish = false

[dependencies]
bevy_ecs = "0.9"
bevy_reflect = "0.9"
