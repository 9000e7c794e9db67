[package]
name = "mu_protocol"
version = "0.1.0"
edition = "2021"
publish = false

[dependencies]
crc = "3"
serialport = { version = "4", default-features = false }
configparser = "3"
clap = { version = "4", features = ["derive"] }
log = "0.4"
env_logger = "0.11"
inquire = "0.7"
terminal-menu = "*"
crossterm = "*"
