[package]
name = "video_space"
version = "0.1.0"
edition = "2021"
publish = false

[dependencies]
env_logger = "*"
serde_json = "*"
sysinfo = "*"
webbrowser = "*"
