[package]
name = "picowatch"
version = "0.1.0"
edition = "2021"
publish = false

[dependencies]
mqtt-tiny = { version = "=0.4.0", default-features = false, features = ["std"] }
