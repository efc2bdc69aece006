[package]
name = "byebyemenu"
version = "0.1.0"
edition = "2021"
publish = false

[dependencies]
shell-words = "*"
log = "*"
env_logger = "*"
gtk4 = "*"
