[package]
name = "osascript"
version = "0.3.0"
edition = "2021"
publish = false

[dependencies]
serde = "1"
serde_json = "1"
