[package]
name = "draw_bridge"
version = "0.1.0"
edition = "2021"
publish = false

[dependencies]
raqote = { version = "*", default-features = false }
vello_cpu = "0.0.4"
