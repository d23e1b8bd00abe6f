[package]
name = "modal_editor"
version = "0.1.0"
edition = "2021"
publish = false

[dependencies]
crossterm = "0.28"
unicode-segmentation = "1"
unicode-width = "0.1"
