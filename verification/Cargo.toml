[package]
name = "clipx_reader"
version = "0.1.0"
edition = "2021"
publish = false

[dependencies]
argh = "*"
csv = "*"
env_logger = "*"
ethercrab = "*"
log = "*"
signal-hook = "*"
tokio = { version = "1", features = ["full"] }
