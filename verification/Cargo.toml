[package]
name = "iso_stream"
version = "0.1.0"
edition = "2021"
publish = false

[dependencies]
anyhow = "1"
futures = "0.3"
libusb1-sys = "*"
log = "0.4"
pretty_env_logger = "*"
rusb = "*"
