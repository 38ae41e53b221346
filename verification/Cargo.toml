[package]
name = "gridvid"
version = "0.1.0"
edition = "2021"
publish = false

[dependencies]
openh264 = "*"
minimp4 = "*"
