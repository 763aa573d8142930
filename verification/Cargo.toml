[package]
name = "kbird"
version = "0.1.0"
edition = "2021"
publish = false

[dependencies]
inotify = { version = "0.9", default-features = false }
sysctl = "0.4"
