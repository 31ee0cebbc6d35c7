[package]
name = "tnexus"
version = "0.1.0"
edition = "2021"
publish = false

[dependencies]
toml = "*"
mio = { version = "*", features = ["os-poll", "net"] }
log = "*"
env_logger = "*"
