[package]
name = "sway_settings"
version = "0.1.0"
edition = "2021"
publish = false

[dependencies]
dirs = "5"
swayipc = "3"
