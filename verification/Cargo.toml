[package]
name = "wx_rs"
version = "0.1.0"
edition = "2021"
publish = false

[dependencies]
bitflags = "1"
raw-window-handle = "0.5"
