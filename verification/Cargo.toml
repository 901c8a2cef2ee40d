[package]
name = "miku-overlay"
version = "0.1.0"
edition = "2021"
publish = false

[dependencies]
async-channel = "2"
gtk4 = "*"
gtk4-layer-shell = "*"
image = { version = "0.25", default-features = false, features = ["png"] }
swayipc = "3"
