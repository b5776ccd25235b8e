[package]
name = "video_bridge"
version = "0.1.0"
edition = "2021"
publish = false

[dependencies]
gstreamer = "=0.18.8"
gstreamer-app = "=0.18.7"
gstreamer-video = "=0.18.7"
iced = { version = "=0.6.0", features = ["tokio"] }
