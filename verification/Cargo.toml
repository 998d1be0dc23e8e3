[package]
name = "neopixel_scene"
version = "0.1.0"
edition = "2021"
publish = false

[dependencies]
anyhow = "1"
log = "0.4"
embedded-svc = "0.26"
esp-idf-svc = "0.47"
