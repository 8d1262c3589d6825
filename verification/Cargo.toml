[package]
name = "front_gateway"
version = "0.1.0"
edition = "2021"
publish = false

[dependencies]
actix-web = "*"
awc = "*"
colored = "*"
env_logger = "*"
log = "*"
