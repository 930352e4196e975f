[package]
name = "viewer_bootstrap"
version = "0.1.0"
edition = "2021"
publish = false

[dependencies]
glib = "*"
gstreamer = "*"
gtk = "*"
relm = "*"
relm-derive = "*"
