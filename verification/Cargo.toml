[package]
name = "unifi_gfm"
version = "0.1.0"
edition = "2021"
publish = false

[dependencies]
nalgebra = "0.32"
libm = "0.2"
cordic = "0.1"
fixed = "1"
