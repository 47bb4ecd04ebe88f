[package]
name = "libwinit"
version = "0.1.0"
edition = "2021"
publish = false

[dependencies]
winit = "0.30"
raw-window-handle = "0.6"
uniffi = "*"
