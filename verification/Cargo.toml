[package]
name = "bevy_immediate"
version = "0.3.0"
edition = "2021"
publish = false

[dependencies]
ahash = "=0.8.12"
bevy_platform = "=0.17.3"
bevy_ecs = "=0.17.3"
bevy_app = "=0.17.3"
log = "=0.4.35"
type-map = "=0.5.1"
bevy_math = "=0.17.3"
bevy_color = "=0.17.3"
bevy_input = "=0.17.3"
bevy_input_focus = "=0.17.3"
bevy_picking = "=0.17.3"
bevy_time = "=0.17.3"
bevy_transform = "=0.17.3"
bevy_window = "=0.17.3"
bevy_ui = "=0.17.3"
bevy_ui_widgets = "=0.17.3"
bevy_feathers = "=0.17.3"
