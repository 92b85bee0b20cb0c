[package]
name = "gpsami"
version = "0.1.0"
edition = "2021"
publish = false

[dependencies]
dirs = "*"
gettext-rs = "*"
glib = "*"
glib-sys = "*"
gtk4 = "*"
gtk-macros = "*"
gudev = "*"
libudev = "*"
rustc-serialize = "*"
