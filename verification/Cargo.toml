[package]
name = "swap_rescue"
version = "0.1.0"
edition = "2021"
publish = false

[dependencies]
bip39 = "2"
bitcoin = "=0.32.5"
elements = "0.25"
iced = { version = "0.13", default-features = false, features = ["tiny-skia"] }
once_cell = "1"
rfd = "0.15"
serde = { version = "1", features = ["derive"] }
serde_yaml = "0.9"
