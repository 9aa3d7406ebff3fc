[package]
name = "llmrs"
version = "0.1.0"
edition = "2021"
publish = false

[dependencies]
clap = { version = "4", features = ["derive"] }
memmap2 = "0.9"
log = "0.4"
env_logger = "0.11"
rand = "0.9"
cudarc = { version = "0.16", features = ["cuda-12060"] }
