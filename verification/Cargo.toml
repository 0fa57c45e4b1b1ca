[package]
name = "avian_pickup"
version = "0.1.0"
edition = "2021"
publish = false

[dependencies]
avian3d = "=0.4.1"
bevy_app = "=0.17.3"
bevy_ecs = "=0.17.3"
bevy_math = "=0.17.3"
bevy_transform = "=0.17.3"
bevy_reflect = "=0.17.3"
bevy_log = "=0.17.3"
serde = { version = "=1.0.229", features = ["derive"] }
