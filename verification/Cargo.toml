[package]
name = "img_compare"
version = "0.1.0"
edition = "2021"
publish = false

[dependencies]
image = "*"
image-compare = "*"
md5 = "*"
rayon = "*"
indicatif = "*"
clap = { version = "*", features = ["derive"] }
