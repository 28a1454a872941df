[package]
name = "breakout"
version = "0.1.0"
edition = "2021"
publish = false

[dependencies]
bytemuck = "1"
glow = "0.10"
glutin = "0.27"
image = "0.23"
nalgebra-glm = "0.15"
tobj = "2.0"
