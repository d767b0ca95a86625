[package]
name = "fluffy_fiesta"
version = "0.1.0"
edition = "2021"
publish = false

[dependencies]
rand = "=0.8.8"
vecmath = "=1.0.0"
log = "=0.4.34"
env_logger = "=0.11.11"
piston = "=1.0.0"
piston_window = "=0.148.0"
piston2d-graphics = "=0.45.0"
image = "=0.25.10"
