[package]
name = "glsl_shaderinfo"
version = "0.1.0"
edition = "2021"
publish = false

[dependencies]
glsl = "*"
argparse = "*"
