[package]
name = "tetris"
version = "0.1.0"
edition = "2021"
publish = false

[dependencies]
libc = "=0.2.191"
rand = "=0.8.8"
rustc-serialize = "=0.3.25"
time = "=0.1.45"
