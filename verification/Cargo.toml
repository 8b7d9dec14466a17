[package]
name = "gst_synth"
version = "0.1.0"
edition = "2021"
publish = false

[dependencies]
async-channel = "*"
glib = "*"
gstreamer = "*"
gtk4 = "*"
gst-plugin-gtk4 = "*"
tracing = "*"
tracing-subscriber = "*"
