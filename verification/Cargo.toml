[package]
name = "encoder_input"
version = "0.1.0"
edition = "2021"
publish = false

[dependencies]
anyhow = "1"
env_logger = "*"
evdev = "0.12"
log = "0.4"
rppal = "*"
