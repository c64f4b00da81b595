[package]
name = "conv2jxl"
version = "0.1.0"
edition = "2021"
publish = false

[dependencies]
argh = "0.1"
crossterm = "*"
foldhash = "*"
image = { version = "0.25", default-features = false, features = ["bmp", "png", "qoi", "tga", "tiff"] }
imagesize = "*"
rand = "0.9"
ratatui = "*"
regex = "1"
tempfile = "3"
