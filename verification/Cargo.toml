[package]
name = "ccm"
version = "0.1.0"
edition = "2021"
publish = false

[dependencies]
gdk4 = "*"
gtk4 = "*"
jiff = "*"
libadwaita = "*"
tracing = "*"
