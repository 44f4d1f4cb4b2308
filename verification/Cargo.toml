[package]
name = "heic2jpg"
version = "0.1.0"
edition = "2021"
publish = false

[dependencies]
gettext-rs = { version = "0.7", features = ["gettext-system"] }
magick_rust = "*"
relm4 = { version = "0.8", features = ["libadwaita", "gnome_45"] }
relm4-components = "0.8"
tracing = "0.1"
tracing-subscriber = "0.3"
walkdir = "2"
