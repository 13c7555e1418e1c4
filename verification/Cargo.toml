[package]
name = "bloom_pipeline"
version = "0.1.0"
edition = "2021"
publish = false

[dependencies]
luminance = "=0.32.0"
luminance-derive = "=0.1.1"
luminance-glfw = "=0.6.1"
cgmath = "=0.17.0"
gltf = "=0.13.0"
rand = "=0.7.3"
