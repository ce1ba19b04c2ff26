[package]
name = "tictactoe"
version = "0.1.0"
edition = "2021"
publish = false

[dependencies]
anyhow = "1"
sdl2 = { version = "*", features = ["image", "ttf"] }
