[package]
name = "nes_cpu"
version = "0.1.0"
edition = "2021"
publish = false

[dependencies]
env_logger = "*"
log = "0.4"
thiserror = "*"
tudelft-nes-ppu = "*"
tudelft-nes-test = "*"
