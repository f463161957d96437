[package]
name = "m68k_timing"
version = "0.1.0"
edition = "2021"
publish = false

[dependencies]
rayon = "*"
