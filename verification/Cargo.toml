[package]
name = "focused_window_source"
version = "0.1.0"
edition = "2021"
publish = false

[dependencies]
active-win-pos-rs = "*"
libobs = "*"
libc = "*"
