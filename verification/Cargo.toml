[package]
name = "motion_sketch"
version = "0.1.0"
edition = "2021"
publish = false

[dependencies]
winit = { version = "=0.29.15", default-features = false, features = ["x11", "rwh_06"] }
log = "=0.4.34"
env_logger = { version = "=0.11.11", default-features = false }
