[package]
name = "wexec"
version = "0.1.0"
edition = "2021"
publish = false

[dependencies]
ahash = "0.8"
futures = "0.3"
slotmap = "1"
winit = "0.30"
