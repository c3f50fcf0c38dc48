[package]
name = "cavestory"
version = "0.1.0"
edition = "2021"
publish = false

[dependencies]
serde = { version = "1", features = ["derive"] }
serde_json = "1"
log = "0.4"
jni = "0.19"
ndk-context = "0.1"
libc = "0.2"
