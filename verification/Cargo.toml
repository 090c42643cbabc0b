[package]
name = "video-toolbox-sys"
version = "0.1.0"
edition = "2021"
publish = false

[dependencies]
core-foundation = "0.7"
core-foundation-sys = "0.7"
core-media-sys = "0.1"
core-video-sys = "0.1"
libc = "0.2"
objc2 = "0.5"
objc2-foundation = "0.2"
