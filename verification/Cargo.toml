[package]
name = "rusty_craft"
version = "0.1.0"
edition = "2021"

[dependencies]
gl = "0.14"
image = { version = "0.22", default-features = false, features = ["png_codec"] }
sdl2 = "0.32"
sdl2-sys = "0.32"
