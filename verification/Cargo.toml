[package]
name = "breakout"
version = "0.1.0"
edition = "2021"
publish = false

[dependencies]
bevy = { version = "=0.18.1", default-features = false, features = ["std", "multi_threaded", "async_executor", "bevy_asset", "bevy_state", "bevy_window", "bevy_color", "bevy_camera", "bevy_image", "bevy_mesh", "bevy_shader", "bevy_render", "bevy_core_pipeline", "bevy_sprite", "bevy_sprite_render", "bevy_text", "bevy_ui", "bevy_ui_render"] }
