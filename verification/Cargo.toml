[package]
name = "clip_names"
version = "0.1.0"
edition = "2021"
publish = false

[dependencies]
regex = "1"
time = { version = "0.3", features = ["parsing"] }
walkdir = "2"
thiserror = "1"
tracing = "0.1"
config = { version = "0.13", default-features = false }
