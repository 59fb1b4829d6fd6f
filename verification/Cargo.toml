[package]
name = "wfhelper"
version = "0.1.0"
edition = "2021"
publish = false

[dependencies]
regex = "*"
clap = { version = "*", features = ["derive"] }
dbus = "*"
gtk = "*"
libappindicator = "*"
notify-rust = "*"
wayland-client = "*"
wayland-protocols = { version = "*", features = ["client", "staging"] }
wayland-protocols-plasma = { version = "*", features = ["client"] }
wayland-protocols-wlr = { version = "*", features = ["client"] }
