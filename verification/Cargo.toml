[package]
name = "retro6502"
version = "0.1.0"
edition = "2021"
publish = false

[dependencies]
clap = { version = "*", features = ["derive"] }
ctrlc = "*"
env_logger = "*"
log = "*"
memmap2 = "*"
pixels = "*"
shellexpand = "*"
tao = "*"
