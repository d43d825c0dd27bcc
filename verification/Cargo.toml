[package]
name = "gesture_detection"
version = "0.1.0"
edition = "2021"
publish = false

[dependencies]
jni = "0.21"
nix = "*"
regex = "1"
