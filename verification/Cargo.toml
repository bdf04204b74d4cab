[package]
name = "winit_window"
version = "0.1.0"
edition = "2021"
publish = false

[dependencies]
winit = "0.22"
pistoncore-input = "*"
pistoncore-window = "*"
