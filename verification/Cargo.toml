[package]
name = "rust_android_app"
version = "0.1.0"
edition = "2021"
publish = false

[dependencies]
android_logger = "*"
jni = "*"
log = "0.4"
