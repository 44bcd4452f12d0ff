[package]
name = "old_tv_pass"
version = "0.1.0"
edition = "2021"
publish = false

[dependencies]
bevy = { version = "=0.16.1", default-features = false, features = ["bevy_core_pipeline", "bevy_render", "bevy_asset"] }
encase = "=0.10.0"
