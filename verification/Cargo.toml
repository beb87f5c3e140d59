[package]
name = "keep_moving"
version = "0.1.0"
edition = "2021"
publish = false

[dependencies]
rand = "*"
