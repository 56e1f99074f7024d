[package]
name = "leek"
version = "0.1.0"
edition = "2021"
publish = false

[dependencies]
notify = "4.0"
sdl2 = { version = "0.31", features = ["image", "ttf", "unsafe_textures"] }
alto = "3.0"
lewton = "0.9"
failure = "0.1"
gl = "0.14"
imgui = "0.0.18"
