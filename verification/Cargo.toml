[package]
name = "nefoxide"
version = "0.1.0"
edition = "2021"
publish = false

[dependencies]
mozjpeg-rs = "*"
image = { version = "*", default-features = false, features = ["jpeg", "png"] }
