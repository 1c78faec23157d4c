[package]
name = "img"
version = "0.1.0"
edition = "2021"
publish = false

[dependencies]
itertools = "0.14"
png = "0.17"
rand = "0.9"
rayon = "1"
thiserror = "2"
turbojpeg = "1"
