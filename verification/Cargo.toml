[package]
name = "rustracer"
version = "0.1.0"
edition = "2021"
publish = false

[dependencies]
fastrand = "=2.5.0"
bvh = "=0.5.0"
nalgebra = "=0.35.0"
png = "=0.16.8"
rayon = "=1.12.0"
clap = "=2.34.0"
tobj = "=2.0.4"
sdl2 = "=0.38.0"
egui_sdl2_gl = { version = "=0.33.2", default-features = false }
