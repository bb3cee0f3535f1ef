[package]
name = "android_bridge"
version = "0.1.0"
edition = "2021"
publish = false

[dependencies]
jni = { version = "0.14", default-features = false }
