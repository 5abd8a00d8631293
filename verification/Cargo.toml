[package]
name = "frost-core"
version = "0.1.0"
edition = "2021"
publish = false

[dependencies]
serde = { version = "1", features = ["derive"] }
serde_json = "1"
parking_lot = "0.12"
lazy_static = "1"
walkdir = "2"
hound = "3"
symphonia = { version = "0.5", features = ["mp3"] }
libloading = "0.8"
cpal = "0.15"
