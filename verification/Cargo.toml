[package]
name = "truvis-render"
version = "0.1.0"
edition = "2021"
publish = false

[dependencies]
ash = "0.38"
glam = "*"
log = "0.4"
imgui = "0.12"
