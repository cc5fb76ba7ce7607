[package]
name = "camlab"
version = "0.1.0"
edition = "2021"
publish = false

[dependencies]
image = "0.24"
imageproc = "0.23"
single_value_channel = "1"
