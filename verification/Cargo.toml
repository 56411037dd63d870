[package]
name = "global_hotkey"
version = "0.1.0"
edition = "2021"
publish = false

[dependencies]
keyboard-types = { version = "0.7", default-features = false }
cocoa = "0.25"
objc = "0.2"
objc2 = "0.5"
