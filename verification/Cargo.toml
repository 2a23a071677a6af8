[package]
name = "raspi_fancon"
version = "0.1.0"
edition = "2021"
publish = false

[dependencies]
log = "*"
env_logger = "*"
rppal = "*"
signal-hook = "*"
