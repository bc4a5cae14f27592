[package]
name = "ac_internal"
version = "0.1.0"
edition = "2021"
publish = false

[dependencies]
goblin = "*"
libc = "0.2"
rand = "0.8"
env_logger = "*"
log = "0.4"
