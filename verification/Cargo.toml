[package]
name = "shilpo_m3e"
version = "0.1.0"
edition = "2021"
publish = false

[dependencies]
zeroize = "1"
unicode-segmentation = "1"
anyhow = "1"
tracing = "0.1"
