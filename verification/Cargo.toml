[package]
name = "okto"
version = "0.1.0"
edition = "2021"
publish = false

[dependencies]
rand = "0.8"
clap = "2.34"
sdl2 = { version = "*", features = ["gfx"] }
