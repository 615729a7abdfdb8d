[package]
name = "file_gatherer"
version = "0.1.0"
edition = "2021"
publish = false

[dependencies]
walkdir = "2"
rayon = "1"
