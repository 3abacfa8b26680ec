[package]
name = "bytebender"
version = "0.1.0"
edition = "2021"
publish = false

[dependencies]
rand = "0.7"
moveslice = "*"
serde_yaml = "*"
memmap2 = "*"
image = { version = "*", default-features = false, features = ["png", "jpeg", "tiff", "bmp", "gif"] }
reqwest = { version = "*", features = ["blocking"] }
