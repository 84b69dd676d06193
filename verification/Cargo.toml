[package]
name = "padme_frontend"
version = "0.1.0"
edition = "2021"
publish = false

[dependencies]
padme-core = "*"
minifb = "*"
cpal = "*"
log = "*"
env_logger = "*"
