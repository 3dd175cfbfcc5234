[package]
name = "bevy_vello_graphics"
version = "0.1.0"
edition = "2021"
publish = false

[dependencies]
bevy_app = { version = "0.15", default-features = false }
bevy_color = { version = "0.15", default-features = false }
bevy_ecs = { version = "0.15", default-features = false }
bevy_math = { version = "0.15", default-features = false }
bevy_utils = { version = "0.15", default-features = false }
kurbo = "0.11"
peniko = "0.3"
vello = "0.4"
