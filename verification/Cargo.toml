[package]
name = "launch_focus"
version = "0.1.0"
edition = "2021"
publish = false

[dependencies]
serde_json = "*"
objc2 = "*"
objc2-app-kit = "*"
