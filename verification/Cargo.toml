[package]
name = "hack_toolchain"
version = "0.1.0"
edition = "2021"
publish = false

[dependencies]
clap = { version = "=4.6.7", features = ["derive"] }
game-loop = { version = "=0.10.2", features = ["winit"] }
pixels = "=0.11.0"
winit = "=0.28.7"
