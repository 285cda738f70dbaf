[package]
name = "mofa_macos_ime"
version = "0.1.0"
edition = "2021"
publish = false

[dependencies]
anyhow = "1"
cocoa = "*"
core-foundation = "*"
core-foundation-sys = "*"
core-graphics = "*"
cpal = "*"
dirs = "*"
dispatch = "*"
libc = "0.2"
objc = "*"
