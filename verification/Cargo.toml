[package]
name = "physics_sync"
version = "0.1.0"
edition = "2021"
publish = false

[dependencies]
bevy = { version = "0.8", default-features = false }
nalgebra = { version = "0.31", features = ["convert-glam021"] }
rapier2d = "0.14"
rapier3d = "0.14"
