[package]
name = "cshop-ui"
version = "0.1.0"
edition = "2021"
publish = false

[dependencies]
ahash = "=0.8.12"
arboard = "=3.7.0"
egui = "=0.36.2"
egui-wgpu = "0.36"
log = "=0.4.35"
rayon = "=1.12.0"
wgpu = "*"
