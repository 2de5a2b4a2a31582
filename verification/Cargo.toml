[package]
name = "realtime_audio"
version = "0.1.0"
edition = "2021"
publish = false

[dependencies]
base64 = "0.22"
makepad-widgets = "*"
serde = { version = "1", features = ["derive"] }
serde_json = "1"
