[package]
name = "media_walker"
version = "0.1.0"
edition = "2021"
publish = false

[dependencies]
infer = "*"
walkdir = "*"
