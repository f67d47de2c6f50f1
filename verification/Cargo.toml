[package]
name = "rustirinth"
version = "0.1.0"
edition = "2021"
publish = false

[dependencies]
ndarray = "0.15"
clap = "2"
gtk = "0.4"
gdk = "0.8"
cairo-rs = "0.4"
