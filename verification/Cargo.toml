[package]
name = "editor_core"
version = "0.1.0"
edition = "2021"
publish = false

[dependencies]
crossterm = "*"
simplelog = "*"
unicode-segmentation = "*"
unicode-width = "*"
