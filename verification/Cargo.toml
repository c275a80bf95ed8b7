[package]
name = "toon-dash"
version = "0.1.1"
edition = "2021"
publish = false

[dependencies]
macroquad = "0.4"
glam = "0.27"
gltf = "1"
rand = { version = "0.8", features = ["small_rng"] }
getrandom = { version = "0.2", features = ["custom"] }
log = "0.4"
