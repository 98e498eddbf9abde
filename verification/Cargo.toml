[package]
name = "compressr"
version = "0.1.0"
edition = "2021"
publish = false

[dependencies]
image = "*"
rayon = "*"
resvg = "*"
tiny-skia = "*"
mozjpeg = { version = "*", default-features = false }
