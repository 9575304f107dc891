[package]
name = "core_video_rs"
version = "0.1.0"
edition = "2021"
publish = false

[dependencies]
core-foundation = "=0.10.1"
core-graphics = "*"
core-utils-rs = "=0.2.2"
four-char-code = "=2.3.0"
io-surface = "*"
thiserror = "=2.0.21"
