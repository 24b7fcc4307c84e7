[package]
name = "flipfile"
version = "0.1.0"
edition = "2021"
publish = false

[dependencies]
env_logger = "0.9"
log = "0.4"
memmap = "0.7"
structopt = "0.3"

[dev-dependencies]
tempfile = "3"
