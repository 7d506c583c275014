[package]
name = "minui"
version = "0.1.0"
edition = "2021"
publish = false

[dependencies]
crossterm = "*"
figlet-rs = "*"
unicode-segmentation = "*"
