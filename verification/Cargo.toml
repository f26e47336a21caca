[package]
name = "bevy_oxr"
version = "0.1.0"
edition = "2021"
publish = false

[dependencies]
anyhow = "1"
bevy = { version = "0.13", default-features = false }
jni = "0.21"
ndk-context = "0.1"
openxr = "0.18"
