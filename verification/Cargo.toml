[package]
name = "livi_external_ui"
version = "0.1.0"
edition = "2021"
publish = false

[dependencies]
libloading = "*"
lilv = "*"
livi = "*"
lv2-sys = "*"
