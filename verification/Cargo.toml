[package]
name = "icfs"
version = "0.1.0"
edition = "2021"
publish = false

[dependencies]
fatfs = "*"
ic-cdk = "*"
time = "*"
