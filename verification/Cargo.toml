[package]
name = "fil_logger"
version = "0.1.0"
edition = "2021"
publish = false

[dependencies]
atty = "0.2"
flexi_logger = "0.17"
log = "0.4"
