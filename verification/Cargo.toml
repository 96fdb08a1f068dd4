[package]
name = "pixelconvert"
version = "1.0.0"
edition = "2021"
publish = false

[dependencies]
anyhow = "1"
image = { version = "0.25", default-features = false, features = ["png", "jpeg", "gif", "bmp", "tiff", "ico", "webp"] }
ravif = { version = "0.11", default-features = false, features = ["threading"] }
rgb = "0.8"
webp = "0.3"
gtk4 = { version = "0.9", features = ["v4_10"] }
libadwaita = { version = "0.7", features = ["v1_5"] }
