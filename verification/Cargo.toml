[package]
name = "process_logger"
version = "0.1.0"
edition = "2021"
publish = false

[dependencies]
anyhow = "*"
chrono = "*"
clap = "*"
csv = "*"
env_logger = "*"
log = "*"
signal-hook = "*"
sysinfo = "*"
