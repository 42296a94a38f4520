[package]
name = "scrap_input"
version = "0.1.0"
edition = "2021"
publish = false

[dependencies]
enigo = "0.1"
evdev = "0.12"
lazy_static = "1.4"
