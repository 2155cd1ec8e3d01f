[package]
name = "coreaudio_props"
version = "0.1.0"
edition = "2021"
publish = false

[dependencies]
coreaudio-sys = "*"
thiserror = "*"
