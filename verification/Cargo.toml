[package]
name = "bevy_shadertoy"
version = "0.1.0"
edition = "2021"
publish = false

[dependencies]
bevy = { version = "=0.6.1", default-features = false, features = ["bevy_render"] }
naga = "=0.8.5"
async-trait = "=0.1.66"
