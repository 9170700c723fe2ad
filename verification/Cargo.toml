[package]
name = "bevy_eqchanged"
version = "0.1.0"
edition = "2021"
publish = false

[dependencies]
intmap = "3"
bevy_ecs = { version = "0.16", default-features = false, features = ["std"] }
