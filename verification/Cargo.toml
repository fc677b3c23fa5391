[package]
name = "rustmix_x4"
version = "0.1.0"
edition = "2021"
publish = false

[dependencies]
fontdue = "=0.9.5"
rustybuzz = "=0.20.1"
