[package]
name = "gstreamer_media"
version = "0.1.0"
edition = "2021"
publish = false

[dependencies]
gstreamer = "0.18"
gstreamer-app = "0.18"
glib = "0.15"
glib-sys = "0.15"
gstreamer-sys = "0.18"
gstreamer-base-sys = "0.18"
gstreamer-gl-x11-sys = "0.18"
gtypes = "*"
libc = "0.2"
x11-dl = "2"
glutin = "0.28"
winit = "0.26"
