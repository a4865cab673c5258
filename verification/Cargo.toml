[package]
name = "mullvad-jni"
version = "0.1.0"
edition = "2021"
publish = false

[dependencies]
chrono = "0.4"
jni = "0.12"
log = "0.4"
fern = "0.5"
