[package]
name = "iced_video_player"
version = "0.1.0"
edition = "2021"
publish = false

[dependencies]
glib = "0.20"
gstreamer = "0.23"
gstreamer-app = "0.23"
gstreamer-video = "0.23"
iced = { version = "0.13", default-features = false, features = ["advanced", "wgpu"] }
iced_wgpu = { version = "0.13", default-features = false }
log = "0.4"
thiserror = "1"
url = "2"
