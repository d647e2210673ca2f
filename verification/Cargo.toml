[package]
name = "moonwave"
version = "0.1.0"
edition = "2021"
publish = false

[dependencies]
android_logger = "*"
block = "0.1"
ctor = "0.2"
jni = "0.21"
log = "0.4"
obfstr = "0.4"
objc = "0.2"
