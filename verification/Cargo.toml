[package]
name = "render_host"
version = "0.1.0"
edition = "2021"
publish = false

[dependencies]
objc2 = "0.5"
objc2-app-kit = "0.2"
objc2-foundation = "0.2"
objc2-metal = "0.2"
objc2-metal-kit = "0.2"
tao = "*"
