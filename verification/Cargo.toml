[package]
name = "wayland_desktop"
version = "0.1.0"
edition = "2021"
publish = false

[dependencies]
image = { version = "=0.25.9", default-features = false, features = ["png"] }
serde_json = "=1.0.154"
