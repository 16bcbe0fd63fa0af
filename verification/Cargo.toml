[package]
name = "wy_media"
version = "0.1.0"
edition = "2021"
publish = false

[dependencies]
crossterm = "0.25"
failure = "0.1"
mp3-duration = "0.1"
rand = "0.8"
rodio = "0.17"
tui = "0.19"
