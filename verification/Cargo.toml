[package]
name = "lemmeknow"
version = "0.1.0"
edition = "2021"
publish = false

[dependencies]
comfy-table = "*"
