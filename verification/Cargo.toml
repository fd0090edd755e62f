[package]
name = "hot_reload"
version = "0.1.0"
edition = "2021"
publish = false

[dependencies]
bevy = { version = "0.16", default-features = false }
libloading = "0.8"
object = "0.36"
rustc-demangle = "0.1"
