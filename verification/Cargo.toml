[package]
name = "sway_easyfocus"
version = "0.1.0"
edition = "2021"
publish = false

[dependencies]
gtk = "0.18"
gtk-layer-shell = "0.8"
swayipc = "3"
