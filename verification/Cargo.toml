[package]
name = "shaderpark"
version = "0.1.0"
edition = "2021"
publish = false

[dependencies]
anyhow = "1"
notify = "=4.0.18"
shaderc = "0.7"
