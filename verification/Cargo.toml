[package]
name = "ec_service_lib"
version = "0.1.0"
edition = "2021"
publish = false

[dependencies]
uuid = "=1.29.0"
log = "0.4"
aarch64-cpu = "*"
