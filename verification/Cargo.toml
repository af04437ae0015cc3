[package]
name = "httpfs"
version = "0.1.0"
edition = "2021"
publish = false

[dependencies]
clap = "*"
curl = "*"
env_logger = "*"
fuser = "*"
libc = "*"
log = "*"
users = "*"
