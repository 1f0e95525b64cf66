[package]
name = "image_optimizer"
version = "0.1.0"
edition = "2021"
publish = false

[dependencies]
image = "=0.25.10"
imagequant = { version = "=4.4.1", default-features = false }
oxipng = "=10.2.1"
png = "=0.18.1"
qoi = "=0.4.1"
webp = "=0.3.1"
serde = { version = "=1.0.229", features = ["derive"] }
