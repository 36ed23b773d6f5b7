[package]
name = "gb_emu"
version = "0.1.0"
edition = "2021"
publish = false

[dependencies]
blip_buf = "0.1"
cpal = "0.8"
log = "0.4"
yansi = "0.5"
allo-isolate = "0.1"
