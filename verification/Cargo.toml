[package]
name = "lynx_core"
version = "0.1.0"
edition = "2021"
publish = false

[dependencies]
libretro-rs = "=0.1.3"
log = "=0.4.34"
