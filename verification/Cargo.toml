[package]
name = "gba"
version = "0.1.0"
edition = "2021"
publish = false

[dependencies]
anyhow = "=1.0.104"
circular-buffer = "=1.2.1"
iced = { version = "=0.14.0", default-features = false, features = ["thread-pool", "tiny-skia", "x11"] }
log = "=0.4.34"
rfd = { version = "=0.17.2", default-features = false, features = ["xdg-portal"] }
thiserror = "=2.0.21"
