[package]
name = "ws2812_anim"
version = "0.1.0"
edition = "2021"
publish = false

[dependencies]
pio-pi5-rs = "=0.0.0-reserved"
