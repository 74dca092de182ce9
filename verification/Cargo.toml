[package]
name = "rawdog"
version = "0.1.0"
edition = "2021"
publish = false

[dependencies]
anyhow = "1"
clap = { version = "4", features = ["derive"] }
image = { version = "0.25", default-features = false, features = ["jpeg", "png", "tiff"] }
imagepipe = "*"
indicatif = "*"
rayon = "1"
