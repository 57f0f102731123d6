[package]
name = "wallpaper_refresh"
version = "0.1.0"
edition = "2021"
publish = false

[dependencies]
image = "*"
rand = "*"
reqwest = { version = "*", default-features = false, features = ["blocking"] }
winapi = { version = "0.3", features = ["winuser"] }
winreg = "*"
