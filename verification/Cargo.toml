[package]
name = "native"
version = "0.1.0"
edition = "2021"
publish = false

[dependencies]
anyhow = "=1.0.104"
glib = "=0.22.10"
gtk4 = "=0.11.5"
libffi = "=5.2.0"
libloading = "=0.8.9"
neon = "=1.1.2"
