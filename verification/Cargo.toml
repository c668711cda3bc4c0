[package]
name = "netease_cloud_music_gtk4"
version = "0.1.0"
edition = "2021"
publish = false

[dependencies]
async-channel = "2.3"
anyhow = "1"
log = "0.4"
once_cell = "1"
gettext-rs = "0.7"
glib = "0.20"
gio = "0.20"
gtk4 = "0.9"
libadwaita = "0.7"
gstreamer-play = "0.23"
pango = "0.20"
