[package]
name = "fontsys"
version = "0.1.0"
edition = "2021"
publish = false

[dependencies]
windows = { version = "=0.58.0", features = ["Win32_Graphics_DirectWrite", "Win32_Foundation"] }
