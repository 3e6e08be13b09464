[package]
name = "raster_device"
version = "0.1.0"
edition = "2021"
publish = false

[dependencies]
image = { version = "*", default-features = false, features = ["png"] }
clap = { version = "4", features = ["derive"] }
freetype-rs = "*"
