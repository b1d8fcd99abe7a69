[package]
name = "wallpaper_rotator"
version = "0.1.0"
edition = "2021"
publish = false

[dependencies]
rand = "0.8"
clap = { version = "4", features = ["derive"] }
widestring = "*"
winapi = { version = "0.3", features = ["winuser", "shlobj", "combaseapi", "knownfolders"] }
