[package]
name = "rq565_converter"
version = "0.1.0"
edition = "2021"
publish = false

[dependencies]
clap = { version = "*", features = ["derive"] }
image = "*"
miette = { version = "*", features = ["fancy"] }
thiserror = "*"
sdl2 = "*"
