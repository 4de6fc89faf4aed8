[package]
name = "tunwatch"
version = "0.1.0"
edition = "2021"
publish = false

[dependencies]
regex = "1"
log = "0.4"
anyhow = "1"
ctrlc = "3"
duct = "*"
netdev = "*"
env_logger = "0.11"
