[package]
name = "nes_emulator"
version = "0.1.0"
edition = "2021"
publish = false

[dependencies]
cpal = "0.15"
sdl2 = "0.35"
