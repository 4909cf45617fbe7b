[package]
name = "cursor_mover"
version = "0.1.0"
edition = "2021"
publish = false

[dependencies]
rand = "0.8"
rdev = "0.5"
enigo = "0.1"
