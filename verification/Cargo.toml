[package]
name = "rustlight"
version = "0.2.0"
edition = "2021"
publish = false

[dependencies]
cgmath = "*"
clap = "2"
env_logger = "*"
log = "*"
num_cpus = "*"
rand = "0.8"
rayon = "*"
