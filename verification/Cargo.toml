[package]
name = "dotfileutil"
version = "0.1.0"
edition = "2021"
publish = false

[dependencies]
anyhow = "1"
cmd_lib_core = "*"
env_logger = "*"
log = "0.4"
structopt = "0.3"
walkdir = "2"
which = "*"
