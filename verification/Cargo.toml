[package]
name = "overlay"
version = "0.1.0"
edition = "2021"
publish = false

[dependencies]
image = { version = "0.25", default-features = false, features = ["png"] }
raw-window-handle = "0.6"
softbuffer = "0.4"
tracing = "0.1"
tracing-subscriber = "0.3"
tracing-web = "0.1"
winit = "0.30"
