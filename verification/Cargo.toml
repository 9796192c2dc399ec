[package]
name = "schedule_graph"
version = "0.1.0"
edition = "2021"
publish = false

[dependencies]
bevy_ecs = { version = "0.10", default-features = false }
